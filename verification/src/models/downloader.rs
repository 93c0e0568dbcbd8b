//! Model downloads: where a model's files go and how a checksum is read
//! from what a checksum tool prints.

use super::registry::ModelMetadata;
use crate::platform::paths::{join, path_join};
use crate::text::{
    chars_of, first_word, first_word_of, same_text, split_chars, split_on, string_of,
    trim, trim_chars, views,
};
use crate::{Error, ErrorKind};
use vstd::prelude::*;
use vstd::string::StringExecFns;

verus! {

/// The length of a SHA-256 checksum in hexadecimal digits.
pub const SHA256_HEX_LEN: usize = 64;

/// Whether `c` is a hexadecimal digit.
pub open spec fn is_hex_digit(c: char) -> bool {
    ('0' <= c <= '9') || ('a' <= c <= 'f') || ('A' <= c <= 'F')
}

/// Whether `s` has the shape of a SHA-256 checksum: 64 hexadecimal
/// digits.
pub open spec fn is_sha256(s: Seq<char>) -> bool {
    s.len() == SHA256_HEX_LEN && forall|i: int| 0 <= i < s.len() ==> is_hex_digit(#[trigger] s[i])
}

/// The checksum in what a checksum tool printed: the first word where it
/// has the shape of a checksum; else what follows the first `=`, up to
/// the next one, trimmed, where that has the shape.
pub open spec fn sha256_in(output: Seq<char>) -> Option<Seq<char>> {
    if is_sha256(first_word(output)) {
        Some(first_word(output))
    } else if split_on(output, '=').len() >= 2 && is_sha256(trim(split_on(output, '=')[1])) {
        Some(trim(split_on(output, '=')[1]))
    } else {
        None
    }
}

/// Whether a run of characters has the shape of a SHA-256 checksum.
fn has_sha256_shape(chars: &Vec<char>) -> (b: bool)
    ensures
        b == is_sha256(chars@),
{
    if chars.len() != SHA256_HEX_LEN {
        return false;
    }
    let mut i: usize = 0;
    while i < chars.len()
        invariant
            i <= chars@.len(),
            chars@.len() == SHA256_HEX_LEN,
            forall|k: int| 0 <= k < i ==> is_hex_digit(#[trigger] chars@[k]),
        decreases chars@.len() - i,
    {
        let c = chars[i];
        let hex = ('0' <= c && c <= '9') || ('a' <= c && c <= 'f') || ('A' <= c && c <= 'F');
        if !hex {
            return false;
        }
        i = i + 1;
    }
    true
}

/// Reads the checksum from what a checksum tool printed, in either of
/// the forms `<checksum>  <file>` and `SHA256(<file>)= <checksum>`.
pub fn parse_sha256_from_output(output: &str) -> (hash: Option<String>)
    ensures
        match sha256_in(output@) {
            Some(h) => hash matches Some(text) && text@ == h,
            None => hash is None,
        },
{
    let chars = chars_of(output);
    let first = first_word_of(&chars);
    if has_sha256_shape(&first) {
        return Some(string_of(&first));
    }
    let parts = split_chars(&chars, '=');
    if parts.len() >= 2 {
        assert(views(parts@)[1] == parts@[1]@);
        let candidate = trim_chars(&parts[1]);
        if has_sha256_shape(&candidate) {
            return Some(string_of(&candidate));
        }
    }
    None
}

/// A lower-case letter for an upper-case one of ASCII; any other
/// character as it is.
pub open spec fn ascii_lower(c: char) -> char {
    if 'A' <= c <= 'Z' {
        ((c as u8) + 32) as char
    } else {
        c
    }
}

/// Whether two texts are equal but for the case of ASCII letters.
pub open spec fn same_ignoring_case(a: Seq<char>, b: Seq<char>) -> bool {
    a.len() == b.len() && forall|i: int|
        0 <= i < a.len() ==> ascii_lower(#[trigger] a[i]) == ascii_lower(b[i])
}

/// The lower-case form of an ASCII letter; any other character as it is.
fn lower(c: char) -> (l: char)
    ensures
        l == ascii_lower(c),
{
    if 'A' <= c && c <= 'Z' {
        ((c as u8) + 32) as char
    } else {
        c
    }
}

/// Whether a file's checksum is the one expected, whatever the case of
/// the digits.
pub fn checksum_matches(actual: &str, expected: &str) -> (same: bool)
    ensures
        same == same_ignoring_case(actual@, expected@),
{
    let a = chars_of(actual);
    let b = chars_of(expected);
    if a.len() != b.len() {
        return false;
    }
    let mut i: usize = 0;
    while i < a.len()
        invariant
            i <= a@.len(),
            a@ == actual@,
            b@ == expected@,
            a@.len() == b@.len(),
            forall|k: int| 0 <= k < i ==> ascii_lower(#[trigger] a@[k]) == ascii_lower(b@[k]),
        decreases a@.len() - i,
    {
        if lower(a[i]) != lower(b[i]) {
            assert(ascii_lower(a@[i as int]) != ascii_lower(b@[i as int]));
            return false;
        }
        i = i + 1;
    }
    true
}

/// A text with its upper-case ASCII letters in lower case.
pub open spec fn lowered(s: Seq<char>) -> Seq<char> {
    s.map_values(|c: char| ascii_lower(c))
}

/// A text with its upper-case ASCII letters in lower case.
pub fn ascii_lowercase(s: &str) -> (l: String)
    ensures
        l@ == lowered(s@),
{
    let chars = chars_of(s);
    let mut out: Vec<char> = Vec::new();
    let mut i: usize = 0;
    while i < chars.len()
        invariant
            i <= chars@.len(),
            out@.len() == i,
            forall|k: int| 0 <= k < i ==> out@[k] == ascii_lower(chars@[k]),
        decreases chars@.len() - i,
    {
        out.push(lower(chars[i]));
        i = i + 1;
    }
    assert(out@ =~= lowered(chars@));
    string_of(&out)
}

/// What is said when a file's checksum is not the one expected.
pub open spec fn mismatch_message(path: Seq<char>, expected: Seq<char>, actual: Seq<char>) -> Seq<
    char,
> {
    "Checksum mismatch for "@ + path + ". expected="@ + lowered(expected) + ", actual="@ + actual
}

/// Holds the checksum a tool gave for the file at `path` against the one
/// expected, whatever the case of the digits.
pub fn verify_checksum(path: &str, expected: &str, actual: &str) -> (result: Result<(), Error>)
    ensures
        same_ignoring_case(actual@, expected@) ==> result is Ok,
        !same_ignoring_case(actual@, expected@) ==> (result matches Err(e) && e.spec_kind()
            == ErrorKind::Model && e.spec_message() == mismatch_message(
            path@,
            expected@,
            actual@,
        )),
{
    if checksum_matches(actual, expected) {
        return Ok(());
    }
    let wanted = ascii_lowercase(expected);
    let mut message = String::from_str("Checksum mismatch for ");
    message.append(path);
    message.append(". expected=");
    message.append(wanted.as_str());
    message.append(", actual=");
    message.append(actual);
    Err(Error::Model(message))
}

/// The tools a checksum is asked of, in order, each with its arguments
/// for the file at `file`: `sha256sum`, `shasum -a 256` and
/// `openssl dgst -sha256`.
pub fn checksum_tools(file: &str) -> (tools: Vec<Vec<String>>)
    ensures
        tools@.len() == 3,
        tools@[0]@.len() == 2 && tools@[0]@[0]@ == "sha256sum"@ && tools@[0]@[1]@ == file@,
        tools@[1]@.len() == 4 && tools@[1]@[0]@ == "shasum"@ && tools@[1]@[1]@ == "-a"@
            && tools@[1]@[2]@ == "256"@ && tools@[1]@[3]@ == file@,
        tools@[2]@.len() == 4 && tools@[2]@[0]@ == "openssl"@ && tools@[2]@[1]@ == "dgst"@
            && tools@[2]@[2]@ == "-sha256"@ && tools@[2]@[3]@ == file@,
{
    let mut first: Vec<String> = Vec::new();
    first.push("sha256sum".to_owned());
    first.push(file.to_owned());
    let mut second: Vec<String> = Vec::new();
    second.push("shasum".to_owned());
    second.push("-a".to_owned());
    second.push("256".to_owned());
    second.push(file.to_owned());
    let mut third: Vec<String> = Vec::new();
    third.push("openssl".to_owned());
    third.push("dgst".to_owned());
    third.push("-sha256".to_owned());
    third.push(file.to_owned());
    let mut tools: Vec<Vec<String>> = Vec::new();
    tools.push(first);
    tools.push(second);
    tools.push(third);
    tools
}

/// Where the sources of the command-line tool are put for the build.
pub const WHISPER_SOURCE_DIR: &'static str = "/tmp/whisper.cpp";

/// Where the build leaves the tool, in the source directory.
pub const BUILT_CLI_PATH: &'static str = "build/bin/whisper-cli";

/// The file mode of the installed tool: anyone may run it.
pub const CLI_MODE: u32 = 0o755;

/// One command of the build of the command-line tool.
pub struct BuildCommand {
    /// The program to run.
    pub program: String,
    /// Its arguments.
    pub args: Vec<String>,
    /// Whether it runs in the source directory.
    pub in_source_dir: bool,
    /// What is said where the program cannot be run.
    pub on_error: String,
    /// What is said where the program fails.
    pub on_failure: String,
}

/// A build command, as contracts see it.
pub struct BuildCommandView {
    pub program: Seq<char>,
    pub args: Seq<Seq<char>>,
    pub in_source_dir: bool,
    pub on_error: Seq<char>,
    pub on_failure: Seq<char>,
}

impl View for BuildCommand {
    type V = BuildCommandView;

    open spec fn view(&self) -> BuildCommandView {
        BuildCommandView {
            program: self.program@,
            args: self.args@.map_values(|s: String| s@),
            in_source_dir: self.in_source_dir,
            on_error: self.on_error@,
            on_failure: self.on_failure@,
        }
    }
}

/// The commands that build the command-line tool, in order: the sources
/// are cloned, the build is configured, and the tool is built.
pub open spec fn build_commands() -> Seq<BuildCommandView> {
    seq![
        BuildCommandView {
            program: "git"@,
            args: seq!["clone"@, "https://github.com/ggerganov/whisper.cpp"@, WHISPER_SOURCE_DIR@],
            in_source_dir: false,
            on_error: "Failed to execute git clone"@,
            on_failure: "Failed to clone whisper.cpp repository"@,
        },
        BuildCommandView {
            program: "cmake"@,
            args: seq!["-B"@, "build"@],
            in_source_dir: true,
            on_error: "Failed to configure whisper.cpp with CMake"@,
            on_failure: "CMake configuration failed"@,
        },
        BuildCommandView {
            program: "cmake"@,
            args: seq!["--build"@, "build"@, "--config"@, "Release"@, "-j"@],
            in_source_dir: true,
            on_error: "Failed to build whisper.cpp"@,
            on_failure: "CMake build failed"@,
        },
    ]
}

/// The views of the commands, in order.
pub open spec fn command_views(commands: Seq<BuildCommand>) -> Seq<BuildCommandView> {
    commands.map_values(|c: BuildCommand| c@)
}

/// Whether `s` begins with `ggml-`.
pub open spec fn is_ggml(id: Seq<char>) -> bool {
    id.len() >= 5 && id.take(5) == seq!['g', 'g', 'm', 'l', '-']
}

/// Knows where downloaded models are kept.
pub struct ModelDownloader {
    cache_dir: String,
}

impl ModelDownloader {
    /// The directory the models are kept in.
    pub closed spec fn cache_dir(&self) -> Seq<char> {
        self.cache_dir@
    }

    /// A downloader that keeps models in this directory.
    pub fn new(cache_dir: String) -> (downloader: Self)
        ensures
            downloader.cache_dir() == cache_dir@,
    {
        ModelDownloader { cache_dir }
    }

    /// The directory of one model.
    pub fn model_dir(&self, model_id: &str) -> (dir: String)
        ensures
            dir@ == path_join(self.cache_dir(), model_id@),
    {
        join(self.cache_dir.as_str(), model_id)
    }

    /// Whether downloading the model called `model_id` begins with
    /// installing the command-line tool: it does for a GGML model while
    /// the tool is not there.
    pub fn needs_whisper_cli(model_id: &str, installed: bool) -> (needed: bool)
        ensures
            needed == (is_ggml(model_id@) && !installed),
    {
        let chars = chars_of(model_id);
        let ggml = chars.len() >= 5 && chars[0] == 'g' && chars[1] == 'g' && chars[2] == 'm'
            && chars[3] == 'l' && chars[4] == '-';
        proof {
            if chars@.len() >= 5 {
                let head = chars@.take(5);
                assert(head[0] == chars@[0] && head[1] == chars@[1] && head[2] == chars@[2]
                    && head[3] == chars@[3] && head[4] == chars@[4]);
                if ggml {
                    assert(head =~= seq!['g', 'g', 'm', 'l', '-']);
                }
            }
        }
        ggml && !installed
    }

    /// The checksum known for one of a model's files: that of the first
    /// pair that names the file.
    pub fn expected_checksum<'a>(metadata: &'a ModelMetadata, file: &str) -> (checksum: Option<
        &'a String,
    >)
        ensures
            match checksum {
                Some(c) => exists|i: int|
                    0 <= i < metadata.file_sha256@.len() && metadata.file_sha256@[i].0@ == file@
                        && metadata.file_sha256@[i].1 == *c && (forall|k: int|
                        0 <= k < i ==> metadata.file_sha256@[k].0@ != file@),
                None => forall|i: int|
                    0 <= i < metadata.file_sha256@.len() ==> metadata.file_sha256@[i].0@ != file@,
            },
    {
        let mut i: usize = 0;
        while i < metadata.file_sha256.len()
            invariant
                i <= metadata.file_sha256@.len(),
                forall|k: int| 0 <= k < i ==> metadata.file_sha256@[k].0@ != file@,
            decreases metadata.file_sha256@.len() - i,
        {
            if same_text(metadata.file_sha256[i].0.as_str(), file) {
                return Some(&metadata.file_sha256[i].1);
            }
            i = i + 1;
        }
        None
    }

    /// The commands that install the command-line tool, in order; none
    /// where it is installed already. The first that cannot be run, or
    /// that fails, ends the installation with its message. After the last
    /// the tool is copied from the source directory to its place.
    pub fn install_whisper_cli(installed: bool) -> (commands: Vec<BuildCommand>)
        ensures
            command_views(commands@) == if installed {
                Seq::empty()
            } else {
                build_commands()
            },
    {
        let mut commands: Vec<BuildCommand> = Vec::new();
        if installed {
            assert(command_views(commands@) =~= Seq::<BuildCommandView>::empty());
            return commands;
        }
        let mut clone: Vec<String> = Vec::new();
        clone.push("clone".to_owned());
        clone.push("https://github.com/ggerganov/whisper.cpp".to_owned());
        clone.push(WHISPER_SOURCE_DIR.to_owned());
        let mut configure: Vec<String> = Vec::new();
        configure.push("-B".to_owned());
        configure.push("build".to_owned());
        let mut build: Vec<String> = Vec::new();
        build.push("--build".to_owned());
        build.push("build".to_owned());
        build.push("--config".to_owned());
        build.push("Release".to_owned());
        build.push("-j".to_owned());
        proof {
            assert(clone@.map_values(|s: String| s@) =~= build_commands()[0].args);
            assert(configure@.map_values(|s: String| s@) =~= build_commands()[1].args);
            assert(build@.map_values(|s: String| s@) =~= build_commands()[2].args);
        }
        commands.push(
            BuildCommand {
                program: "git".to_owned(),
                args: clone,
                in_source_dir: false,
                on_error: "Failed to execute git clone".to_owned(),
                on_failure: "Failed to clone whisper.cpp repository".to_owned(),
            },
        );
        commands.push(
            BuildCommand {
                program: "cmake".to_owned(),
                args: configure,
                in_source_dir: true,
                on_error: "Failed to configure whisper.cpp with CMake".to_owned(),
                on_failure: "CMake configuration failed".to_owned(),
            },
        );
        commands.push(
            BuildCommand {
                program: "cmake".to_owned(),
                args: build,
                in_source_dir: true,
                on_error: "Failed to build whisper.cpp".to_owned(),
                on_failure: "CMake build failed".to_owned(),
            },
        );
        assert(command_views(commands@) =~= build_commands());
        commands
    }

    /// Where the command-line tool is kept: `bin/whisper-cli` in the
    /// cache directory.
    pub fn get_whisper_cli_path(cache_dir: &str) -> (path: String)
        ensures
            path@ == path_join(cache_dir@, "bin/whisper-cli"@),
    {
        join(cache_dir, "bin/whisper-cli")
    }

    /// Whether a model is downloaded, given which of its files exist: all
    /// of them have to.
    pub fn is_downloaded(files_exist: &Vec<bool>) -> (all: bool)
        ensures
            all == (forall|i: int| 0 <= i < files_exist@.len() ==> files_exist@[i]),
    {
        let mut i: usize = 0;
        while i < files_exist.len()
            invariant
                i <= files_exist@.len(),
                forall|k: int| 0 <= k < i ==> files_exist@[k],
            decreases files_exist@.len() - i,
        {
            if !files_exist[i] {
                return false;
            }
            i = i + 1;
        }
        true
    }
}

} // verus!
