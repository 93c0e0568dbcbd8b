//! The models the daemon knows of.

use crate::text::same_text;
use vstd::prelude::*;
use vstd::string::StringExecFns;

verus! {

/// The format of a model's files.
#[derive(Debug, Clone, Copy, PartialEq, Eq, Structural)]
pub enum ModelFormat {
    /// GGML, for whisper.cpp.
    GGML,
    /// ONNX.
    ONNX,
    /// PyTorch.
    PyTorch,
}

/// The size class of a Whisper model.
#[derive(Debug, Clone, Copy, PartialEq, Eq, Structural)]
pub enum ModelSize {
    Tiny,
    Base,
    Small,
    Medium,
    Large,
}

impl ModelSize {
    /// The size class in lower case.
    pub fn as_str(&self) -> (name: &'static str)
        ensures
            name@ == match self {
                ModelSize::Tiny => "tiny"@,
                ModelSize::Base => "base"@,
                ModelSize::Small => "small"@,
                ModelSize::Medium => "medium"@,
                ModelSize::Large => "large"@,
            },
    {
        match self {
            ModelSize::Tiny => "tiny",
            ModelSize::Base => "base",
            ModelSize::Small => "small",
            ModelSize::Medium => "medium",
            ModelSize::Large => "large",
        }
    }
}

/// Whether a model knows many languages or English only.
#[derive(Debug, Clone, Copy, PartialEq, Eq, Structural)]
pub enum ModelVariant {
    Multilingual,
    EnglishOnly,
}

/// What the registry knows of one model.
#[derive(Debug, Clone)]
pub struct ModelMetadata {
    /// The model's identifier, such as "ggml-base.en".
    pub id: String,
    /// The name shown to the user.
    pub name: String,
    /// The size class.
    pub size: ModelSize,
    /// The variant.
    pub variant: ModelVariant,
    /// The format of the files.
    pub format: ModelFormat,
    /// The approximate size in bytes.
    pub size_bytes: u64,
    /// The Hugging Face repository.
    pub hf_repo: String,
    /// The files to download.
    pub files: Vec<String>,
    /// SHA-256 checksums, as pairs of file and checksum.
    pub file_sha256: Vec<(String, String)>,
    /// How many times faster than real time the model runs, in tenths.
    pub speed_factor_tenths: u32,
    /// The memory needed, in MiB.
    pub memory_mb: u32,
    /// A description.
    pub description: String,
}

/// The address a file of a repository is downloaded from.
pub open spec fn download_url(hf_repo: Seq<char>, file: Seq<char>) -> Seq<char> {
    "https://huggingface.co/"@ + hf_repo + "/resolve/main/"@ + file
}

impl ModelMetadata {
    /// For each file to download, the file and its address.
    pub fn download_urls(&self) -> (urls: Vec<(String, String)>)
        ensures
            urls@.len() == self.files@.len(),
            forall|i: int|
                0 <= i < urls@.len() ==> (#[trigger] urls@[i]).0@ == self.files@[i]@ && urls@[i].1@
                    == download_url(self.hf_repo@, self.files@[i]@),
    {
        let mut urls: Vec<(String, String)> = Vec::new();
        let mut i: usize = 0;
        while i < self.files.len()
            invariant
                i <= self.files@.len(),
                urls@.len() == i,
                forall|k: int|
                    0 <= k < i ==> (#[trigger] urls@[k]).0@ == self.files@[k]@ && urls@[k].1@
                        == download_url(self.hf_repo@, self.files@[k]@),
            decreases self.files@.len() - i,
        {
            let file: &String = &self.files[i];
            let mut url = String::from_str("https://huggingface.co/");
            url.append(self.hf_repo.as_str());
            url.append("/resolve/main/");
            url.append(file.as_str());
            urls.push((file.clone(), url));
            i = i + 1;
        }
        urls
    }
}

/// The registry's models.
pub struct ModelRegistry {
    models: Vec<ModelMetadata>,
}

/// What the registry knows of one model, as contracts see it.
pub struct ModelView {
    pub id: Seq<char>,
    pub name: Seq<char>,
    pub size: ModelSize,
    pub variant: ModelVariant,
    pub format: ModelFormat,
    pub size_bytes: u64,
    pub hf_repo: Seq<char>,
    pub files: Seq<Seq<char>>,
    /// The number of checksums known.
    pub checksums: nat,
    pub speed_factor_tenths: u32,
    pub memory_mb: u32,
    pub description: Seq<char>,
}

impl View for ModelMetadata {
    type V = ModelView;

    open spec fn view(&self) -> ModelView {
        ModelView {
            id: self.id@,
            name: self.name@,
            size: self.size,
            variant: self.variant,
            format: self.format,
            size_bytes: self.size_bytes,
            hf_repo: self.hf_repo@,
            files: self.files@.map_values(|f: String| f@),
            checksums: self.file_sha256@.len(),
            speed_factor_tenths: self.speed_factor_tenths,
            memory_mb: self.memory_mb,
            description: self.description@,
        }
    }
}

/// The models' views, in order.
pub open spec fn views_of(models: Seq<ModelMetadata>) -> Seq<ModelView> {
    models.map_values(|m: ModelMetadata| m@)
}

/// The models the registry is made with, in order.
pub open spec fn known_models() -> Seq<ModelView> {
    seq![
        ModelView {
            id: "ggml-tiny"@,
            name: "Whisper Tiny Multilingual (GGML)"@,
            size: ModelSize::Tiny,
            variant: ModelVariant::Multilingual,
            format: ModelFormat::GGML,
            size_bytes: 78643200,
            hf_repo: "ggerganov/whisper.cpp"@,
            files: seq!["ggml-tiny.bin"@],
            checksums: 0,
            speed_factor_tenths: 320,
            memory_mb: 200,
            description: "Fastest multilingual model. Supports 99 languages. Good for real-time dictation."@,
        },
        ModelView {
            id: "ggml-tiny.en"@,
            name: "Whisper Tiny English (GGML)"@,
            size: ModelSize::Tiny,
            variant: ModelVariant::EnglishOnly,
            format: ModelFormat::GGML,
            size_bytes: 78643200,
            hf_repo: "ggerganov/whisper.cpp"@,
            files: seq!["ggml-tiny.en.bin"@],
            checksums: 0,
            speed_factor_tenths: 320,
            memory_mb: 200,
            description: "Fastest English-only model. Optimized for English transcription."@,
        },
        ModelView {
            id: "ggml-base"@,
            name: "Whisper Base Multilingual (GGML)"@,
            size: ModelSize::Base,
            variant: ModelVariant::Multilingual,
            format: ModelFormat::GGML,
            size_bytes: 148897792,
            hf_repo: "ggerganov/whisper.cpp"@,
            files: seq!["ggml-base.bin"@],
            checksums: 0,
            speed_factor_tenths: 160,
            memory_mb: 300,
            description: "Best balance of speed and accuracy for multiple languages. Supports 99 languages."@,
        },
        ModelView {
            id: "ggml-base.en"@,
            name: "Whisper Base English (GGML)"@,
            size: ModelSize::Base,
            variant: ModelVariant::EnglishOnly,
            format: ModelFormat::GGML,
            size_bytes: 148897792,
            hf_repo: "ggerganov/whisper.cpp"@,
            files: seq!["ggml-base.en.bin"@],
            checksums: 0,
            speed_factor_tenths: 160,
            memory_mb: 300,
            description: "Best balance of speed and accuracy. Recommended for English users."@,
        },
        ModelView {
            id: "ggml-small"@,
            name: "Whisper Small Multilingual (GGML)"@,
            size: ModelSize::Small,
            variant: ModelVariant::Multilingual,
            format: ModelFormat::GGML,
            size_bytes: 488636416,
            hf_repo: "ggerganov/whisper.cpp"@,
            files: seq!["ggml-small.bin"@],
            checksums: 0,
            speed_factor_tenths: 80,
            memory_mb: 600,
            description: "Higher accuracy for multiple languages. Still fast enough for real-time use."@,
        },
        ModelView {
            id: "ggml-small.en"@,
            name: "Whisper Small English (GGML)"@,
            size: ModelSize::Small,
            variant: ModelVariant::EnglishOnly,
            format: ModelFormat::GGML,
            size_bytes: 488636416,
            hf_repo: "ggerganov/whisper.cpp"@,
            files: seq!["ggml-small.en.bin"@],
            checksums: 0,
            speed_factor_tenths: 80,
            memory_mb: 600,
            description: "Higher accuracy for English. Still fast enough for real-time use."@,
        },
        ModelView {
            id: "ggml-medium"@,
            name: "Whisper Medium Multilingual (GGML)"@,
            size: ModelSize::Medium,
            variant: ModelVariant::Multilingual,
            format: ModelFormat::GGML,
            size_bytes: 1572864000,
            hf_repo: "ggerganov/whisper.cpp"@,
            files: seq!["ggml-medium.bin"@],
            checksums: 0,
            speed_factor_tenths: 40,
            memory_mb: 1200,
            description: "High accuracy for multiple languages. Slower but more accurate."@,
        },
        ModelView {
            id: "ggml-medium.en"@,
            name: "Whisper Medium English (GGML)"@,
            size: ModelSize::Medium,
            variant: ModelVariant::EnglishOnly,
            format: ModelFormat::GGML,
            size_bytes: 1572864000,
            hf_repo: "ggerganov/whisper.cpp"@,
            files: seq!["ggml-medium.en.bin"@],
            checksums: 0,
            speed_factor_tenths: 40,
            memory_mb: 1200,
            description: "High accuracy for English. Slower but more accurate."@,
        },
        ModelView {
            id: "ggml-large-v2"@,
            name: "Whisper Large v2 Multilingual (GGML)"@,
            size: ModelSize::Large,
            variant: ModelVariant::Multilingual,
            format: ModelFormat::GGML,
            size_bytes: 3040870400,
            hf_repo: "ggerganov/whisper.cpp"@,
            files: seq!["ggml-large-v2.bin"@],
            checksums: 0,
            speed_factor_tenths: 20,
            memory_mb: 2500,
            description: "Best accuracy for multiple languages. Requires significant resources."@,
        },
        ModelView {
            id: "ggml-large-v3"@,
            name: "Whisper Large v3 Multilingual (GGML)"@,
            size: ModelSize::Large,
            variant: ModelVariant::Multilingual,
            format: ModelFormat::GGML,
            size_bytes: 3040870400,
            hf_repo: "ggerganov/whisper.cpp"@,
            files: seq!["ggml-large-v3.bin"@],
            checksums: 0,
            speed_factor_tenths: 20,
            memory_mb: 2500,
            description: "Latest large model with improved accuracy. Best for demanding use cases."@,
        },
        ModelView {
            id: "ggml-large-v3-turbo"@,
            name: "Whisper Large v3 Turbo Multilingual (GGML)"@,
            size: ModelSize::Large,
            variant: ModelVariant::Multilingual,
            format: ModelFormat::GGML,
            size_bytes: 1572864000,
            hf_repo: "ggerganov/whisper.cpp"@,
            files: seq!["ggml-large-v3-turbo.bin"@],
            checksums: 0,
            speed_factor_tenths: 35,
            memory_mb: 1500,
            description: "Faster variant of large-v3 with comparable accuracy. Best large model for real-time use."@,
        },
        ModelView {
            id: "parakeet-ctc-0.6b"@,
            name: "NVIDIA Parakeet CTC 0.6B (Multilingual)"@,
            size: ModelSize::Base,
            variant: ModelVariant::Multilingual,
            format: ModelFormat::ONNX,
            size_bytes: 684720128,
            hf_repo: "istupakov/parakeet-ctc-0.6b-onnx"@,
            files: seq!["model.int8.onnx"@, "vocab.txt"@, "config.json"@],
            checksums: 0,
            speed_factor_tenths: 600,
            memory_mb: 400,
            description: "High-performance multilingual ASR (INT8 quantized). Supports 100+ languages with CTC architecture. Optimized for CPU inference."@,
        },
    ]
}

/// Where the model with this identifier stands among `models`: the index
/// of the first one that has it, or their number where none has.
pub open spec fn position_of(models: Seq<ModelMetadata>, id: Seq<char>) -> int
    decreases models.len(),
{
    if models.len() == 0 || models[0].id@ == id {
        0
    } else {
        1 + position_of(models.drop_first(), id)
    }
}

/// The texts as owned strings.
fn strings_of(items: &[&str]) -> (owned: Vec<String>)
    ensures
        owned@.len() == items@.len(),
        forall|i: int| 0 <= i < owned@.len() ==> (#[trigger] owned@[i])@ == items@[i]@,
{
    let mut owned: Vec<String> = Vec::new();
    let mut i: usize = 0;
    while i < items.len()
        invariant
            i <= items@.len(),
            owned@.len() == i,
            forall|k: int| 0 <= k < i ==> (#[trigger] owned@[k])@ == items@[k]@,
        decreases items@.len() - i,
    {
        owned.push(items[i].to_owned());
        i = i + 1;
    }
    owned
}

/// One model of the table.
fn entry(
    id: &str,
    name: &str,
    size: ModelSize,
    variant: ModelVariant,
    format: ModelFormat,
    size_bytes: u64,
    hf_repo: &str,
    files: &[&str],
    speed_factor_tenths: u32,
    memory_mb: u32,
    description: &str,
) -> (m: ModelMetadata)
    ensures
        m@ == (ModelView {
            id: id@,
            name: name@,
            size,
            variant,
            format,
            size_bytes,
            hf_repo: hf_repo@,
            files: files@.map_values(|f: &str| f@),
            checksums: 0,
            speed_factor_tenths,
            memory_mb,
            description: description@,
        }),
{
    let owned = strings_of(files);
    assert(owned@.map_values(|f: String| f@) =~= files@.map_values(|f: &str| f@));
    ModelMetadata {
        id: id.to_owned(),
        name: name.to_owned(),
        size,
        variant,
        format,
        size_bytes,
        hf_repo: hf_repo.to_owned(),
        files: owned,
        file_sha256: Vec::new(),
        speed_factor_tenths,
        memory_mb,
        description: description.to_owned(),
    }
}

impl ModelRegistry {
    /// The models the registry holds.
    pub closed spec fn models(&self) -> Seq<ModelMetadata> {
        self.models@
    }

    /// Whether the registry holds the models it is made with.
    pub open spec fn wf(&self) -> bool {
        views_of(self.models()) == known_models()
    }

    /// The registry with all the models the daemon knows of.
    pub fn new() -> (registry: Self)
        ensures
            registry.wf(),
            registry.models().len() == 12,
    {
        let mut models: Vec<ModelMetadata> = Vec::new();
        models.push(
            entry(
                "ggml-tiny",
                "Whisper Tiny Multilingual (GGML)",
                ModelSize::Tiny,
                ModelVariant::Multilingual,
                ModelFormat::GGML,
                78643200,
                "ggerganov/whisper.cpp",
                &["ggml-tiny.bin"],
                320,
                200,
                "Fastest multilingual model. Supports 99 languages. Good for real-time dictation.",
            ),
        );
        models.push(
            entry(
                "ggml-tiny.en",
                "Whisper Tiny English (GGML)",
                ModelSize::Tiny,
                ModelVariant::EnglishOnly,
                ModelFormat::GGML,
                78643200,
                "ggerganov/whisper.cpp",
                &["ggml-tiny.en.bin"],
                320,
                200,
                "Fastest English-only model. Optimized for English transcription.",
            ),
        );
        models.push(
            entry(
                "ggml-base",
                "Whisper Base Multilingual (GGML)",
                ModelSize::Base,
                ModelVariant::Multilingual,
                ModelFormat::GGML,
                148897792,
                "ggerganov/whisper.cpp",
                &["ggml-base.bin"],
                160,
                300,
                "Best balance of speed and accuracy for multiple languages. Supports 99 languages.",
            ),
        );
        models.push(
            entry(
                "ggml-base.en",
                "Whisper Base English (GGML)",
                ModelSize::Base,
                ModelVariant::EnglishOnly,
                ModelFormat::GGML,
                148897792,
                "ggerganov/whisper.cpp",
                &["ggml-base.en.bin"],
                160,
                300,
                "Best balance of speed and accuracy. Recommended for English users.",
            ),
        );
        models.push(
            entry(
                "ggml-small",
                "Whisper Small Multilingual (GGML)",
                ModelSize::Small,
                ModelVariant::Multilingual,
                ModelFormat::GGML,
                488636416,
                "ggerganov/whisper.cpp",
                &["ggml-small.bin"],
                80,
                600,
                "Higher accuracy for multiple languages. Still fast enough for real-time use.",
            ),
        );
        models.push(
            entry(
                "ggml-small.en",
                "Whisper Small English (GGML)",
                ModelSize::Small,
                ModelVariant::EnglishOnly,
                ModelFormat::GGML,
                488636416,
                "ggerganov/whisper.cpp",
                &["ggml-small.en.bin"],
                80,
                600,
                "Higher accuracy for English. Still fast enough for real-time use.",
            ),
        );
        models.push(
            entry(
                "ggml-medium",
                "Whisper Medium Multilingual (GGML)",
                ModelSize::Medium,
                ModelVariant::Multilingual,
                ModelFormat::GGML,
                1572864000,
                "ggerganov/whisper.cpp",
                &["ggml-medium.bin"],
                40,
                1200,
                "High accuracy for multiple languages. Slower but more accurate.",
            ),
        );
        models.push(
            entry(
                "ggml-medium.en",
                "Whisper Medium English (GGML)",
                ModelSize::Medium,
                ModelVariant::EnglishOnly,
                ModelFormat::GGML,
                1572864000,
                "ggerganov/whisper.cpp",
                &["ggml-medium.en.bin"],
                40,
                1200,
                "High accuracy for English. Slower but more accurate.",
            ),
        );
        models.push(
            entry(
                "ggml-large-v2",
                "Whisper Large v2 Multilingual (GGML)",
                ModelSize::Large,
                ModelVariant::Multilingual,
                ModelFormat::GGML,
                3040870400,
                "ggerganov/whisper.cpp",
                &["ggml-large-v2.bin"],
                20,
                2500,
                "Best accuracy for multiple languages. Requires significant resources.",
            ),
        );
        models.push(
            entry(
                "ggml-large-v3",
                "Whisper Large v3 Multilingual (GGML)",
                ModelSize::Large,
                ModelVariant::Multilingual,
                ModelFormat::GGML,
                3040870400,
                "ggerganov/whisper.cpp",
                &["ggml-large-v3.bin"],
                20,
                2500,
                "Latest large model with improved accuracy. Best for demanding use cases.",
            ),
        );
        models.push(
            entry(
                "ggml-large-v3-turbo",
                "Whisper Large v3 Turbo Multilingual (GGML)",
                ModelSize::Large,
                ModelVariant::Multilingual,
                ModelFormat::GGML,
                1572864000,
                "ggerganov/whisper.cpp",
                &["ggml-large-v3-turbo.bin"],
                35,
                1500,
                "Faster variant of large-v3 with comparable accuracy. Best large model for real-time use.",
            ),
        );
        models.push(
            entry(
                "parakeet-ctc-0.6b",
                "NVIDIA Parakeet CTC 0.6B (Multilingual)",
                ModelSize::Base,
                ModelVariant::Multilingual,
                ModelFormat::ONNX,
                684720128,
                "istupakov/parakeet-ctc-0.6b-onnx",
                &["model.int8.onnx", "vocab.txt", "config.json"],
                600,
                400,
                "High-performance multilingual ASR (INT8 quantized). Supports 100+ languages with CTC architecture. Optimized for CPU inference.",
            ),
        );
        proof {
            lemma_registry_table(models@);
        }
        ModelRegistry { models }
    }

    /// All the models.
    pub fn list_models(&self) -> (models: &[ModelMetadata])
        ensures
            models@ == self.models(),
    {
        self.models.as_slice()
    }

    /// The model with this identifier: the first one that has it.
    pub fn get_model(&self, id: &str) -> (model: Option<&ModelMetadata>)
        ensures
            match model {
                Some(m) => {
                    &&& position_of(self.models(), id@) < self.models().len()
                    &&& *m == self.models()[position_of(self.models(), id@)]
                    &&& m.id@ == id@
                },
                None => {
                    &&& position_of(self.models(), id@) == self.models().len()
                    &&& forall|i: int| 0 <= i < self.models().len() ==> self.models()[i].id@ != id@
                },
            },
    {
        let mut i: usize = 0;
        while i < self.models.len()
            invariant
                i <= self.models@.len(),
                forall|k: int| 0 <= k < i ==> self.models@[k].id@ != id@,
            decreases self.models@.len() - i,
        {
            if same_text(self.models[i].id.as_str(), id) {
                proof {
                    lemma_position_of(self.models@, id@, i as int);
                }
                return Some(&self.models[i]);
            }
            i = i + 1;
        }
        proof {
            lemma_position_of(self.models@, id@, i as int);
        }
        None
    }

    /// The model recommended to most users: "ggml-base.en".
    pub fn recommended(&self) -> (model: &ModelMetadata)
        requires
            self.wf(),
        ensures
            model.id@ == "ggml-base.en"@,
            *model == self.models()[position_of(self.models(), "ggml-base.en"@)],
    {
        assert(views_of(self.models()).len() == 12);
        assert(views_of(self.models())[3].id == "ggml-base.en"@);
        assert(self.models()[3].id@ == "ggml-base.en"@);
        match self.get_model("ggml-base.en") {
            Some(model) => model,
            None => {
                assert(false);
                &self.models[3]
            },
        }
    }
}

/// Twelve models with the views of the table are the table.
proof fn lemma_registry_table(models: Seq<ModelMetadata>)
    requires
        models.len() == 12,
        forall|i: int| 0 <= i < 12 ==> (#[trigger] models[i])@.id == known_models()[i].id,
        forall|i: int| 0 <= i < 12 ==> (#[trigger] models[i])@.name == known_models()[i].name,
        forall|i: int| 0 <= i < 12 ==> (#[trigger] models[i])@.size == known_models()[i].size,
        forall|i: int|
            0 <= i < 12 ==> (#[trigger] models[i])@.variant == known_models()[i].variant,
        forall|i: int| 0 <= i < 12 ==> (#[trigger] models[i])@.format == known_models()[i].format,
        forall|i: int|
            0 <= i < 12 ==> (#[trigger] models[i])@.size_bytes == known_models()[i].size_bytes,
        forall|i: int|
            0 <= i < 12 ==> (#[trigger] models[i])@.hf_repo == known_models()[i].hf_repo,
        forall|i: int| 0 <= i < 12 ==> (#[trigger] models[i])@.files =~= known_models()[i].files,
        forall|i: int| 0 <= i < 12 ==> (#[trigger] models[i])@.checksums == 0,
        forall|i: int|
            0 <= i < 12 ==> (#[trigger] models[i])@.speed_factor_tenths
                == known_models()[i].speed_factor_tenths,
        forall|i: int|
            0 <= i < 12 ==> (#[trigger] models[i])@.memory_mb == known_models()[i].memory_mb,
        forall|i: int|
            0 <= i < 12 ==> (#[trigger] models[i])@.description == known_models()[i].description,
    ensures
        views_of(models) == known_models(),
{
    assert forall|i: int| 0 <= i < 12 implies views_of(models)[i] == known_models()[i] by {
        let m = models[i]@;
        let k = known_models()[i];
        assert(m.files == k.files);
    }
    assert(views_of(models) =~= known_models());
}

/// `position_of` is `i` where no model before `i` has the identifier and
/// the one at `i`, if there is one, has.
pub proof fn lemma_position_of(models: Seq<ModelMetadata>, id: Seq<char>, i: int)
    requires
        0 <= i <= models.len(),
        forall|k: int| 0 <= k < i ==> models[k].id@ != id,
        i < models.len() ==> models[i].id@ == id,
    ensures
        position_of(models, id) == i,
    decreases models.len(),
{
    if i > 0 {
        let rest = models.drop_first();
        assert forall|k: int| 0 <= k < i - 1 implies rest[k].id@ != id by {
            assert(rest[k] == models[k + 1]);
        }
        lemma_position_of(rest, id, i - 1);
    }
}

impl Default for ModelRegistry {
    fn default() -> (registry: Self)
        ensures
            registry.wf(),
    {
        Self::new()
    }
}

} // verus!
