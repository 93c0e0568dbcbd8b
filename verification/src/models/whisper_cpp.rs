//! The back end on whisper.cpp's native bindings: where its model file is
//! looked for and how its segments become a transcription. The bindings
//! themselves are called by the program.

use super::runtime::{check_transcribe_input, input_error, ModelConfig, ModelInfo, Transcription};
use crate::platform::paths::{join, path_join};
use crate::text::{chars_of, concat, string_of, trim, trim_chars};
use crate::{Error, ErrorKind};
use vstd::prelude::*;

verus! {

/// All the segments' texts in a row.
pub open spec fn joined(segments: Seq<String>) -> Seq<char>
    decreases segments.len(),
{
    if segments.len() == 0 {
        Seq::empty()
    } else {
        joined(segments.drop_last()) + segments.last()@
    }
}

/// The whisper.cpp back end's state.
pub struct WhisperCpp {
    loaded: bool,
    config: Option<ModelConfig>,
    model_path: Option<String>,
}

impl WhisperCpp {
    /// Whether a model is loaded.
    pub closed spec fn loaded(&self) -> bool {
        self.loaded
    }

    /// The settings the model was loaded with.
    pub closed spec fn spec_config(&self) -> Option<ModelConfig> {
        self.config
    }

    /// The file the model was loaded from.
    pub closed spec fn spec_model_path(&self) -> Option<String> {
        self.model_path
    }

    /// A back end with nothing loaded.
    pub fn new() -> (result: Result<Self, Error>)
        ensures
            result matches Ok(backend) && !backend.loaded() && backend.spec_config() is None
                && backend.spec_model_path() is None,
    {
        Ok(WhisperCpp { loaded: false, config: None, model_path: None })
    }

    /// Whether a model is loaded.
    pub fn is_loaded(&self) -> (b: bool)
        ensures
            b == self.loaded(),
    {
        self.loaded
    }

    /// Where the model called `model_id` is looked for below the models
    /// directory, in this order: the file itself; `<id>/<id>.bin`;
    /// `<id>.bin/<id>.bin`; `<id>/ggml-model.bin`; `<id>/<id>`. The first
    /// place where a file exists is taken; the second place is where the
    /// model is expected and is named when none exists.
    pub fn resolve_model_path(model_id: &str, models_dir: &str) -> (places: Vec<String>)
        ensures
            places@.len() == 5,
            places@[0]@ == path_join(models_dir@, model_id@),
            places@[1]@ == path_join(path_join(models_dir@, model_id@), model_id@ + ".bin"@),
            places@[2]@ == path_join(
                path_join(models_dir@, model_id@ + ".bin"@),
                model_id@ + ".bin"@,
            ),
            places@[3]@ == path_join(path_join(models_dir@, model_id@), "ggml-model.bin"@),
            places@[4]@ == path_join(path_join(models_dir@, model_id@), model_id@),
    {
        let file = concat(model_id, ".bin");
        let by_id = join(models_dir, model_id);
        let by_file = join(models_dir, file.as_str());
        let mut places: Vec<String> = Vec::new();
        places.push(join(models_dir, model_id));
        places.push(join(by_id.as_str(), file.as_str()));
        places.push(join(by_file.as_str(), file.as_str()));
        places.push(join(by_id.as_str(), "ggml-model.bin"));
        places.push(join(by_id.as_str(), model_id));
        places
    }

    /// What is said when the model file is nowhere to be found.
    pub open spec fn not_found_message(expected: Seq<char>, model_id: Seq<char>) -> Seq<char> {
        "Model file not found: "@ + expected
            + "\nDownload GGML models with: onevox models download "@ + model_id
    }

    /// The error for a model file that is nowhere to be found: it names
    /// the place where the file is expected.
    pub fn not_found(expected: &str, model_id: &str) -> (e: Error)
        ensures
            e.spec_kind() == ErrorKind::Model,
            e.spec_message() == Self::not_found_message(expected@, model_id@),
    {
        let head = concat("Model file not found: ", expected);
        let tail = concat("\nDownload GGML models with: onevox models download ", model_id);
        assert(head@ + tail@ =~= Self::not_found_message(expected@, model_id@));
        Error::Model(concat(head.as_str(), tail.as_str()))
    }

    /// Records that the bindings have loaded the model from
    /// `model_path`.
    pub fn loaded_with(&mut self, config: ModelConfig, model_path: String)
        ensures
            final(self).loaded(),
            final(self).spec_config() == Some(config),
            final(self).spec_model_path() == Some(model_path),
    {
        self.loaded = true;
        self.config = Some(config);
        self.model_path = Some(model_path);
    }

    /// Forgets the loaded model.
    pub fn unload(&mut self)
        ensures
            !final(self).loaded(),
            final(self).spec_config() is None,
            final(self).spec_model_path() is None,
    {
        self.loaded = false;
        self.config = None;
        self.model_path = None;
    }

    /// The back end's name.
    pub fn name(&self) -> (name: &'static str)
        ensures
            name@ == "whisper.cpp"@,
    {
        "whisper.cpp"
    }

    /// Checks a request to transcribe: the model is loaded, the rate is
    /// 16 kHz and there are samples.
    pub fn check_request(&self, len: usize, sample_rate: u32) -> (result: Result<(), Error>)
        ensures
            match input_error(self.loaded(), len as nat, sample_rate) {
                None => result is Ok,
                Some(message) => {
                    &&& result matches Err(e)
                    &&& e.spec_kind() == ErrorKind::Model
                    &&& e.spec_message() == message
                },
            },
    {
        check_transcribe_input(self.loaded, len, sample_rate)
    }

    /// The number of threads the bindings are run with.
    pub fn threads(&self) -> (n: Option<u32>)
        ensures
            n == match self.spec_config() {
                Some(config) => Some(config.n_threads),
                None => None,
            },
    {
        match &self.config {
            Some(config) => Some(config.n_threads),
            None => None,
        }
    }

    /// Makes the transcription of the segments the bindings decoded:
    /// their texts in a row, trimmed; the language is left to the model
    /// and not reported; the token count is the number of segments.
    pub fn finish(&self, segments: &Vec<String>, processing_time_ms: u64) -> (t: Transcription)
        ensures
            t.text@ == trim(joined(segments@)),
            t.language is None,
            t.confidence is None,
            t.processing_time_ms == processing_time_ms,
            t.tokens == Some(segments@.len() as usize),
    {
        let mut text: Vec<char> = Vec::new();
        let mut i: usize = 0;
        assert(segments@.take(0) =~= Seq::<String>::empty());
        while i < segments.len()
            invariant
                i <= segments@.len(),
                text@ == joined(segments@.take(i as int)),
            decreases segments@.len() - i,
        {
            let piece = chars_of(segments[i].as_str());
            proof {
                assert(segments@.take(i + 1).drop_last() =~= segments@.take(i as int));
            }
            let ghost base = text@;
            let mut j: usize = 0;
            while j < piece.len()
                invariant
                    j <= piece@.len(),
                    text@ == base + piece@.take(j as int),
                decreases piece@.len() - j,
            {
                text.push(piece[j]);
                assert(text@ =~= base + piece@.take(j + 1));
                j = j + 1;
            }
            assert(piece@.take(piece@.len() as int) =~= piece@);
            i = i + 1;
        }
        assert(segments@.take(segments@.len() as int) =~= segments@);
        let trimmed = trim_chars(&text);
        Transcription {
            text: string_of(&trimmed),
            language: None,
            confidence: None,
            processing_time_ms,
            tokens: Some(segments.len()),
        }
    }

    /// What the back end says of itself, given the size of the model file.
    pub fn info(&self, size_bytes: u64) -> (info: ModelInfo)
        ensures
            info.name@ == "whisper.cpp"@,
            info.size_bytes == size_bytes,
            info.backend@ == "whisper.cpp"@,
            match self.spec_config() {
                Some(config) => info.model_type@ == config.model_path@ && info.gpu_enabled
                    == config.use_gpu,
                None => info.model_type@ == "unknown"@ && !info.gpu_enabled,
            },
    {
        let (model_type, gpu_enabled) = match &self.config {
            Some(config) => (config.model_path.clone(), config.use_gpu),
            None => ("unknown".to_owned(), false),
        };
        ModelInfo {
            name: "whisper.cpp".to_owned(),
            size_bytes,
            model_type,
            backend: "whisper.cpp".to_owned(),
            gpu_enabled,
        }
    }
}

} // verus!
