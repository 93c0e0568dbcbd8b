//! The back end that runs the whisper.cpp command-line tool: what it is
//! given, how long it may take and how its output is read.

use super::runtime::{check_transcribe_input, input_error, ModelConfig, ModelInfo, Transcription};
use crate::platform::paths::{join, path_join};
use crate::text::{chars_of, concat, concat3, decimal, decimal_string, find_char, index_of, push_spaced, split_chars, split_on, string_of, subrange_chars, trim, trim_chars, views};
use crate::{Error, ErrorKind};
use vstd::prelude::*;

verus! {

/// How long one transcription may take, in milliseconds.
pub const TRANSCRIBE_TIMEOUT_MS: u64 = 30_000;

/// How long the back end waits between two looks at the running tool, in
/// milliseconds.
pub const POLL_INTERVAL_MS: u64 = 20;

/// File mode of the temporary WAV file: the owner only.
pub const TEMP_WAV_MODE: u32 = 0o600;

/// Where the tool is looked for when no cache directory is known.
pub const FALLBACK_BINARY_PATH: &'static str = "./bin/whisper-cli";

/// The text of one line of the tool's output: what follows the first
/// closing bracket, without the white space around it; nothing where the
/// line has no closing bracket.
pub open spec fn segment_of(line: Seq<char>) -> Seq<char> {
    let i = index_of(line, ']');
    if i < line.len() {
        trim(line.skip(i + 1))
    } else {
        Seq::empty()
    }
}

/// The texts of the lines that have one, in order, with one space between
/// neighbours.
pub open spec fn parse_lines(lines: Seq<Seq<char>>) -> Seq<char>
    decreases lines.len(),
{
    if lines.len() == 0 {
        Seq::empty()
    } else {
        let front = parse_lines(lines.drop_last());
        let segment = segment_of(lines.last());
        if segment.len() == 0 {
            front
        } else if front.len() == 0 {
            segment
        } else {
            front + seq![' '] + segment
        }
    }
}

/// The text in the tool's output, whose lines have the form
/// `[hh:mm:ss.fff --> hh:mm:ss.fff] text`.
pub open spec fn parsed_output(output: Seq<char>) -> Seq<char> {
    parse_lines(split_on(output, '\n'))
}

/// Whether a path holds a character no path may hold: NUL, line feed or
/// carriage return.
pub open spec fn has_control(path: Seq<char>) -> bool {
    exists|i: int| 0 <= i < path.len() && (path[i] == '\0' || path[i] == '\n' || path[i] == '\r')
}

/// What is wrong with a model path, if anything.
pub open spec fn model_path_error(path: Seq<char>) -> Option<Seq<char>> {
    if trim(path).len() == 0 {
        Some("Model path cannot be empty"@)
    } else if has_control(path) {
        Some("Model path contains invalid control characters"@)
    } else {
        None
    }
}

/// What the back end does next while the tool runs.
#[derive(Debug, Clone, Copy, PartialEq, Eq, Structural)]
pub enum PollStep {
    /// The tool has exited: collect its output.
    Collect,
    /// The tool ran too long: kill it and give up.
    Kill,
    /// Wait this many milliseconds and look again.
    Wait(u64),
}

/// The whisper.cpp command-line back end.
pub struct WhisperCppCli {
    config: ModelConfig,
    binary_path: String,
    loaded: bool,
}

impl WhisperCppCli {
    /// The settings in force.
    pub closed spec fn spec_config(&self) -> ModelConfig {
        self.config
    }

    /// The path of the tool.
    pub closed spec fn spec_binary_path(&self) -> Seq<char> {
        self.binary_path@
    }

    /// Whether a model is loaded.
    pub closed spec fn spec_loaded(&self) -> bool {
        self.loaded
    }

    /// A back end around the tool at `binary_path`, or at
    /// `./bin/whisper-cli` where no path is given. No model is loaded.
    pub fn new(binary_path: Option<String>) -> (cli: Self)
        ensures
            !cli.spec_loaded(),
            cli.spec_binary_path() == match binary_path {
                Some(path) => path@,
                None => FALLBACK_BINARY_PATH@,
            },
            cli.spec_config().model_path@ == "models/ggml-base.en.bin"@,
            cli.spec_config().language@ == "en"@,
            cli.spec_config().use_gpu,
            cli.spec_config().n_threads == 1,
            cli.spec_config().beam_size == 5,
            !cli.spec_config().translate,
    {
        let binary_path = match binary_path {
            Some(path) => path,
            None => FALLBACK_BINARY_PATH.to_owned(),
        };
        WhisperCppCli { config: ModelConfig::default(), binary_path, loaded: false }
    }

    /// A back end around the tool in the cache directory:
    /// `bin/whisper-cli` below it.
    pub fn in_cache_dir(cache_dir: &str) -> (cli: Self)
        ensures
            !cli.spec_loaded(),
            cli.spec_binary_path() == path_join(cache_dir@, "bin/whisper-cli"@),
    {
        Self::new(Some(join(cache_dir, "bin/whisper-cli")))
    }

    /// The path of the tool.
    pub fn binary_path(&self) -> (path: &str)
        ensures
            path@ == self.spec_binary_path(),
    {
        self.binary_path.as_str()
    }

    /// Whether a model is loaded.
    pub fn is_loaded(&self) -> (b: bool)
        ensures
            b == self.spec_loaded(),
    {
        self.loaded
    }

    /// Reads the tool's output: the text after the time stamps of each
    /// line, the lines' texts joined by single spaces.
    pub fn parse_output(&self, output: &str) -> (result: Result<String, Error>)
        ensures
            result matches Ok(text) && text@ == parsed_output(output@),
    {
        let chars = chars_of(output);
        let lines = split_chars(&chars, '\n');
        let mut text: Vec<char> = Vec::new();
        let mut k: usize = 0;
        assert(views(lines@).take(0) =~= Seq::<Seq<char>>::empty());
        while k < lines.len()
            invariant
                k <= lines@.len(),
                text@ == parse_lines(views(lines@).take(k as int)),
            decreases lines@.len() - k,
        {
            let line = &lines[k];
            proof {
                let all = views(lines@);
                assert(all.take(k + 1).drop_last() =~= all.take(k as int));
                assert(all.take(k + 1).last() == line@);
            }
            let i = find_char(line, ']');
            if i < line.len() {
                let rest = subrange_chars(line, i + 1, line.len());
                assert(rest@ =~= line@.skip(i + 1));
                let segment = trim_chars(&rest);
                push_spaced(&mut text, &segment);
            }
            k = k + 1;
        }
        assert(views(lines@).take(lines@.len() as int) =~= views(lines@));
        Ok(string_of(&text))
    }

    /// Checks a model path: it may not be blank and may hold neither NUL
    /// nor a line break.
    pub fn validate_model_path(path: &str) -> (result: Result<(), Error>)
        ensures
            match model_path_error(path@) {
                None => result is Ok,
                Some(message) => {
                    &&& result matches Err(e)
                    &&& e.spec_kind() == ErrorKind::Model
                    &&& e.spec_message() == message
                },
            },
    {
        let chars = chars_of(path);
        let kept = trim_chars(&chars);
        if kept.len() == 0 {
            return Err(Error::Model("Model path cannot be empty".to_owned()));
        }
        let mut i: usize = 0;
        while i < chars.len()
            invariant
                i <= chars@.len(),
                chars@ == path@,
                trim(path@).len() > 0,
                forall|k: int|
                    0 <= k < i ==> !(chars@[k] == '\0' || chars@[k] == '\n' || chars@[k] == '\r'),
            decreases chars@.len() - i,
        {
            let c = chars[i];
            if c == '\0' || c == '\n' || c == '\r' {
                assert(0 <= i < path@.len() && (path@[i as int] == '\0' || path@[i as int] == '\n'
                    || path@[i as int] == '\r'));
                return Err(
                    Error::Model("Model path contains invalid control characters".to_owned()),
                );
            }
            i = i + 1;
        }
        Ok(())
    }

    /// Where a model named `input` is looked for, in this order: at
    /// `input` itself; as a model identifier, at `<cache>/<input>/<input>.bin`;
    /// as a file name, at `<cache>/<name without .bin>/<input>` and at
    /// `<cache>/<input>`. The first place where a file exists is taken;
    /// where none does, `input` itself.
    pub fn resolve_model_path(input: &str, cache_root: &str) -> (places: Vec<String>)
        ensures
            places@.len() == 4,
            places@[0]@ == input@,
            places@[1]@ == path_join(path_join(cache_root@, input@), input@ + ".bin"@),
            places@[2]@ == path_join(path_join(cache_root@, model_id_of(input@)), input@),
            places@[3]@ == path_join(cache_root@, input@),
    {
        let mut places: Vec<String> = Vec::new();
        places.push(input.to_owned());
        let by_id_dir = join(cache_root, input);
        let file = concat(input, ".bin");
        places.push(join(by_id_dir.as_str(), file.as_str()));
        let id = model_id(input);
        let nested_dir = join(cache_root, id.as_str());
        places.push(join(nested_dir.as_str(), input));
        places.push(join(cache_root, input));
        places
    }

    /// Loads a model. The caller says whether the tool is there and where
    /// the model file was found, if anywhere. Without the tool or the file
    /// nothing is loaded.
    pub fn load(&mut self, config: ModelConfig, binary_exists: bool, model_file: Option<String>) -> (result:
        Result<(), Error>)
        ensures
            final(self).spec_binary_path() == old(self).spec_binary_path(),
            !binary_exists ==> (result matches Err(e) && e.spec_kind() == ErrorKind::Model
                && e.spec_message() == "whisper-cli binary not found at: "@ + old(self).spec_binary_path()
                + "\nPlease build whisper.cpp and copy the binary to this location"@ && *final(self)
                == *old(self)),
            binary_exists && model_file is None ==> (result matches Err(e) && e.spec_kind()
                == ErrorKind::Model && e.spec_message() == "Model file not found: "@
                + config.model_path@
                + "\nPlease download it with: onevox models download ggml-base.en\nor set [model].model_path to the full file path"@
                && *final(self) == *old(self)),
            binary_exists && model_file is Some ==> (result is Ok && final(self).spec_loaded()
                && final(self).spec_config() == ModelConfig {
                model_path: model_file->Some_0,
                ..config
            }),
    {
        if !binary_exists {
            return Err(
                Error::Model(
                    concat3(
                        "whisper-cli binary not found at: ",
                        self.binary_path.as_str(),
                        "\nPlease build whisper.cpp and copy the binary to this location",
                    ),
                ),
            );
        }
        match model_file {
            None => Err(
                Error::Model(
                    concat3(
                        "Model file not found: ",
                        config.model_path.as_str(),
                        "\nPlease download it with: onevox models download ggml-base.en\nor set [model].model_path to the full file path",
                    ),
                ),
            ),
            Some(path) => {
                self.config = ModelConfig { model_path: path, ..config };
                self.loaded = true;
                Ok(())
            },
        }
    }

    /// Forgets the loaded model.
    pub fn unload(&mut self)
        ensures
            !final(self).spec_loaded(),
            final(self).spec_binary_path() == old(self).spec_binary_path(),
            final(self).spec_config() == old(self).spec_config(),
    {
        self.loaded = false;
    }

    /// The back end's name.
    pub fn name(&self) -> (name: &'static str)
        ensures
            name@ == "whisper-cpp-cli"@,
    {
        "whisper-cpp-cli"
    }

    /// Checks a request to transcribe before anything is run: the model is
    /// loaded, the rate is 16 kHz, there are samples and the model path is
    /// sound. The first of these that fails is reported.
    pub fn check_request(&self, len: usize, sample_rate: u32) -> (result: Result<(), Error>)
        ensures
            result is Ok <==> input_error(self.spec_loaded(), len as nat, sample_rate) is None
                && model_path_error(self.spec_config().model_path@) is None,
            result matches Err(e) ==> e.spec_kind() == ErrorKind::Model && e.spec_message() == (
            match input_error(self.spec_loaded(), len as nat, sample_rate) {
                Some(message) => message,
                None => model_path_error(self.spec_config().model_path@)->Some_0,
            }),
    {
        match check_transcribe_input(self.loaded, len, sample_rate) {
            Err(e) => Err(e),
            Ok(_) => Self::validate_model_path(self.config.model_path.as_str()),
        }
    }

    /// The arguments the tool is run with on the WAV file at `wav_path`.
    pub fn command_args(&self, wav_path: &str) -> (args: Vec<String>)
        ensures
            args@.len() == if self.spec_config().translate {
                10int
            } else {
                9int
            },
            args@[0]@ == "-m"@,
            args@[1]@ == self.spec_config().model_path@,
            args@[2]@ == "-f"@,
            args@[3]@ == wav_path@,
            args@[4]@ == "-np"@,
            args@[5]@ == "-t"@,
            args@[6]@ == decimal(self.spec_config().n_threads as nat),
            args@[7]@ == "-l"@,
            args@[8]@ == self.spec_config().language@,
            self.spec_config().translate ==> args@[9]@ == "-tr"@,
    {
        let mut args: Vec<String> = Vec::new();
        args.push("-m".to_owned());
        args.push(self.config.model_path.clone());
        args.push("-f".to_owned());
        args.push(wav_path.to_owned());
        args.push("-np".to_owned());
        args.push("-t".to_owned());
        args.push(decimal_string(self.config.n_threads as u64));
        args.push("-l".to_owned());
        args.push(self.config.language.clone());
        if self.config.translate {
            args.push("-tr".to_owned());
        }
        args
    }

    /// What to do about the running tool: collect its output once it has
    /// exited; kill it once it has run longer than the time limit; else
    /// wait and look again.
    pub fn poll(exited: bool, elapsed_ms: u64) -> (step: PollStep)
        ensures
            step == if exited {
                PollStep::Collect
            } else if elapsed_ms > TRANSCRIBE_TIMEOUT_MS {
                PollStep::Kill
            } else {
                PollStep::Wait(POLL_INTERVAL_MS)
            },
    {
        if exited {
            PollStep::Collect
        } else if elapsed_ms > TRANSCRIBE_TIMEOUT_MS {
            PollStep::Kill
        } else {
            PollStep::Wait(POLL_INTERVAL_MS)
        }
    }

    /// The error of a transcription that was killed for running too long.
    pub fn timed_out() -> (e: Error)
        ensures
            e.spec_kind() == ErrorKind::Model,
            e.spec_message() == "whisper-cli timed out after "@ + decimal(
                (TRANSCRIBE_TIMEOUT_MS / 1000) as nat,
            ) + " seconds"@,
    {
        let seconds = decimal_string(TRANSCRIBE_TIMEOUT_MS / 1000);
        Error::Model(concat3("whisper-cli timed out after ", seconds.as_str(), " seconds"))
    }

    /// Makes the transcription of what the tool left behind: where it
    /// failed, an error that quotes what it wrote to standard error; else
    /// the text in its output, trimmed, in the language it was run for.
    pub fn finish(&self, success: bool, stdout: &str, stderr: &str, processing_time_ms: u64) -> (result:
        Result<Transcription, Error>)
        ensures
            !success ==> (result matches Err(e) && e.spec_kind() == ErrorKind::Model
                && e.spec_message() == "whisper-cli failed: "@ + stderr@),
            success ==> (result matches Ok(t) && t.text@ == trim(parsed_output(stdout@))
                && t.language == Some(self.spec_config().language) && t.confidence is None
                && t.processing_time_ms == processing_time_ms && t.tokens is None),
    {
        if !success {
            return Err(Error::Model(concat("whisper-cli failed: ", stderr)));
        }
        let text = match self.parse_output(stdout) {
            Ok(text) => text,
            Err(e) => {
                return Err(e);
            },
        };
        let trimmed = Transcription::trimmed(text.as_str());
        Ok(
            Transcription {
                text: trimmed.text,
                language: Some(self.config.language.clone()),
                confidence: None,
                processing_time_ms,
                tokens: None,
            },
        )
    }

    /// What the back end says of itself, given the size of the model file.
    pub fn info(&self, size_bytes: u64) -> (info: ModelInfo)
        ensures
            info.name@ == "WhisperCppCli"@,
            info.size_bytes == size_bytes,
            info.model_type@ == split_on(self.spec_config().model_path@, '/').last(),
            info.backend@ == "whisper.cpp (CLI)"@,
            !info.gpu_enabled,
    {
        let chars = chars_of(self.config.model_path.as_str());
        let parts = split_chars(&chars, '/');
        let last = &parts[parts.len() - 1];
        assert(views(parts@).last() == last@);
        ModelInfo {
            name: "WhisperCppCli".to_owned(),
            size_bytes,
            model_type: string_of(last),
            backend: "whisper.cpp (CLI)".to_owned(),
            gpu_enabled: false,
        }
    }
}

/// Whether `s` ends with `.bin`.
pub open spec fn ends_with_bin(s: Seq<char>) -> bool {
    s.len() >= 4 && s.subrange(s.len() - 4, s.len() as int) == seq!['.', 'b', 'i', 'n']
}

/// The model identifier a file name stands for: the name without a final
/// `.bin`.
pub open spec fn model_id_of(name: Seq<char>) -> Seq<char> {
    if ends_with_bin(name) {
        name.take(name.len() - 4)
    } else {
        name
    }
}

/// The model identifier a file name stands for.
pub fn model_id(name: &str) -> (id: String)
    ensures
        id@ == model_id_of(name@),
{
    let chars = chars_of(name);
    let n = chars.len();
    if n >= 4 && chars[n - 4] == '.' && chars[n - 3] == 'b' && chars[n - 2] == 'i' && chars[n - 1]
        == 'n' {
        assert(chars@.subrange(n - 4, n as int) =~= seq!['.', 'b', 'i', 'n']);
        let kept = subrange_chars(&chars, 0, n - 4);
        assert(kept@ =~= chars@.take(n - 4));
        string_of(&kept)
    } else {
        proof {
            if ends_with_bin(chars@) {
                let tail = chars@.subrange(n - 4, n as int);
                assert(tail[0] == '.' && tail[1] == 'b' && tail[2] == 'i' && tail[3] == 'n');
            }
        }
        name.to_owned()
    }
}

} // verus!
