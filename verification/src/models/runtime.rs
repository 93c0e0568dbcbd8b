//! The interface every transcription back end offers, and what goes in
//! and comes out of it.

use crate::text::{chars_of, concat3, decimal, decimal_string, string_of, trim, trim_chars};
use crate::audio::buffer::{concat_samples, AudioChunk, Sample};
use crate::vad::processor::SpeechSegment;
use crate::{Error, ErrorKind};
use vstd::prelude::*;

verus! {

/// The one sample rate models take.
pub const MODEL_SAMPLE_RATE: u32 = 16000;

/// The most threads a model is given by default.
pub const MAX_DEFAULT_THREADS: u32 = 8;

/// The result of a transcription.
#[derive(Debug, Clone)]
pub struct Transcription {
    /// The decoded text.
    pub text: String,
    /// The language detected, as an ISO 639-1 code.
    pub language: Option<String>,
    /// The confidence, in thousandths: 0 to 1000.
    pub confidence: Option<u16>,
    /// How long the transcription took, in milliseconds.
    pub processing_time_ms: u64,
    /// The number of tokens generated.
    pub tokens: Option<usize>,
}

impl Transcription {
    /// A transcription of this text, with nothing else known.
    pub fn new(text: String) -> (t: Self)
        ensures
            t.text == text,
            t.language is None,
            t.confidence is None,
            t.processing_time_ms == 0,
            t.tokens is None,
    {
        Transcription {
            text,
            language: None,
            confidence: None,
            processing_time_ms: 0,
            tokens: None,
        }
    }

    /// A transcription of `text` without the white space around it.
    pub fn trimmed(text: &str) -> (t: Self)
        ensures
            t.text@ == trim(text@),
            t.language is None,
            t.confidence is None,
            t.processing_time_ms == 0,
            t.tokens is None,
    {
        let chars = chars_of(text);
        let kept = trim_chars(&chars);
        Self::new(string_of(&kept))
    }

    /// Whether the text is empty.
    pub fn is_empty(&self) -> (b: bool)
        ensures
            b == (self.text@.len() == 0),
    {
        self.text.as_str().is_empty()
    }
}

/// Settings a model is loaded with.
#[derive(Debug, Clone)]
pub struct ModelConfig {
    /// Path of the model file.
    pub model_path: String,
    /// The language, or "auto".
    pub language: String,
    /// Whether to use the graphics processor where there is one.
    pub use_gpu: bool,
    /// Threads for inference on the processor.
    pub n_threads: u32,
    /// Beam size for decoding.
    pub beam_size: u32,
    /// Whether to translate to English.
    pub translate: bool,
}

/// The number of threads a model gets by default on a machine that can
/// run `available` threads at once: that many, but one at least and eight
/// at most; one where the machine does not say.
pub fn default_thread_count(available: Option<u32>) -> (n: u32)
    ensures
        1 <= n <= MAX_DEFAULT_THREADS,
        n == match available {
            Some(a) => if a < 1 {
                1
            } else if a > MAX_DEFAULT_THREADS {
                MAX_DEFAULT_THREADS
            } else {
                a
            },
            None => 1,
        },
{
    match available {
        Some(a) => {
            if a < 1 {
                1
            } else if a > MAX_DEFAULT_THREADS {
                MAX_DEFAULT_THREADS
            } else {
                a
            }
        },
        None => 1,
    }
}

impl Default for ModelConfig {
    /// The default settings, for a machine that does not say how many
    /// threads it can run.
    fn default() -> (config: Self)
        ensures
            config.model_path@ == "models/ggml-base.en.bin"@,
            config.language@ == "en"@,
            config.use_gpu,
            config.n_threads == 1,
            config.beam_size == 5,
            !config.translate,
    {
        ModelConfig {
            model_path: "models/ggml-base.en.bin".to_owned(),
            language: "en".to_owned(),
            use_gpu: true,
            n_threads: default_thread_count(None),
            beam_size: 5,
            translate: false,
        }
    }
}

/// What a model says of itself.
#[derive(Debug, Clone)]
pub struct ModelInfo {
    /// The model's name.
    pub name: String,
    /// The model's size in bytes.
    pub size_bytes: u64,
    /// The model's type, such as "whisper-base".
    pub model_type: String,
    /// The back end, such as "whisper.cpp".
    pub backend: String,
    /// Whether the graphics processor is used.
    pub gpu_enabled: bool,
}

impl Default for ModelInfo {
    fn default() -> (info: Self)
        ensures
            info.name@ == "Unknown"@,
            info.size_bytes == 0,
            info.model_type@ == "Unknown"@,
            info.backend@ == "Unknown"@,
            !info.gpu_enabled,
    {
        ModelInfo {
            name: "Unknown".to_owned(),
            size_bytes: 0,
            model_type: "Unknown".to_owned(),
            backend: "Unknown".to_owned(),
            gpu_enabled: false,
        }
    }
}

/// What is wrong with a request to transcribe, if anything. The model has
/// to be loaded, the rate has to be 16 kHz and there have to be samples;
/// each failing has a message of its own, and the first that fails is
/// named.
pub open spec fn input_error(loaded: bool, len: nat, sample_rate: u32) -> Option<Seq<char>> {
    if !loaded {
        Some("Model not loaded"@)
    } else if sample_rate != MODEL_SAMPLE_RATE {
        Some(
            "Sample rate must be 16kHz, got "@ + decimal(sample_rate as nat)
                + "Hz. Please resample audio."@,
        )
    } else if len == 0 {
        Some("No audio samples provided"@)
    } else {
        None
    }
}

/// Checks a request to transcribe: `Ok` where the model is loaded, the
/// rate is 16 kHz and there are samples; else a model error that says
/// which of the three failed.
pub fn check_transcribe_input(loaded: bool, len: usize, sample_rate: u32) -> (result: Result<
    (),
    Error,
>)
    ensures
        match input_error(loaded, len as nat, sample_rate) {
            None => result is Ok,
            Some(message) => {
                &&& result matches Err(e)
                &&& e.spec_kind() == ErrorKind::Model
                &&& e.spec_message() == message
            },
        },
{
    if !loaded {
        Err(Error::Model("Model not loaded".to_owned()))
    } else if sample_rate != MODEL_SAMPLE_RATE {
        let rate = decimal_string(sample_rate as u64);
        Err(
            Error::Model(
                concat3(
                    "Sample rate must be 16kHz, got ",
                    rate.as_str(),
                    "Hz. Please resample audio.",
                ),
            ),
        )
    } else if len == 0 {
        Err(Error::Model("No audio samples provided".to_owned()))
    } else {
        Ok(())
    }
}

/// A transcription back end. It is loaded, asked to transcribe any number
/// of times, and unloaded.
///
/// Every back end rejects a request while it is not loaded, at a rate
/// other than 16 kHz, or without samples, and returns text without white
/// space around it. What else `load` and `transcribe` do, each back end
/// says for itself in `loads` and `transcribes`.
pub trait ModelRuntime {
    /// Whether the model is loaded.
    spec fn loaded(&self) -> bool;

    /// Whether `load`, called on `pre` with `config`, may leave `post`
    /// behind and return `result`. A back end that promises nothing more
    /// leaves this as it is.
    open spec fn loads(pre: &Self, config: ModelConfig, post: &Self, result: Result<(), Error>) -> bool {
        true
    }

    /// Whether `transcribe`, called on `pre`, may leave `post` behind and
    /// return `result`. A back end that promises nothing more leaves this
    /// as it is.
    open spec fn transcribes(
        pre: &Self,
        samples: Seq<Sample>,
        sample_rate: u32,
        post: &Self,
        result: Result<Transcription, Error>,
    ) -> bool {
        true
    }

    /// Loads the model.
    fn load(&mut self, config: ModelConfig) -> (result: Result<(), Error>)
        ensures
            Self::loads(old(self), config, final(self), result),
            result is Ok ==> final(self).loaded(),
    ;

    /// Whether the model is loaded.
    fn is_loaded(&self) -> (b: bool)
        ensures
            b == self.loaded(),
    ;

    /// Transcribes mono samples.
    fn transcribe(&mut self, samples: &[Sample], sample_rate: u32) -> (result: Result<
        Transcription,
        Error,
    >)
        ensures
            Self::transcribes(old(self), samples@, sample_rate, final(self), result),
            input_error(old(self).loaded(), samples@.len(), sample_rate) is Some ==> result is Err,
            result matches Ok(t) ==> trim(t.text@) == t.text@,
    ;

    /// Unloads the model.
    fn unload(&mut self)
        ensures
            !final(self).loaded(),
    ;

    /// The back end's name.
    fn name(&self) -> &str;

    /// What the model says of itself.
    fn info(&self) -> ModelInfo;
}

/// Transcribes one chunk: its samples at its rate.
pub fn transcribe_chunk<M: ModelRuntime>(model: &mut M, chunk: &AudioChunk) -> (result: Result<
    Transcription,
    Error,
>)
    ensures
        M::transcribes(old(model), chunk.samples@, chunk.sample_rate, final(model), result),
        input_error(old(model).loaded(), chunk.samples@.len(), chunk.sample_rate) is Some
            ==> result is Err,
        result matches Ok(t) ==> trim(t.text@) == t.text@,
{
    model.transcribe(chunk.samples.as_slice(), chunk.sample_rate)
}

/// Transcribes one segment: all its samples in a row, at the rate of its
/// first chunk.
pub fn transcribe_segment<M: ModelRuntime>(model: &mut M, segment: &SpeechSegment) -> (result:
    Result<Transcription, Error>)
    ensures
        M::transcribes(
            old(model),
            concat_samples(segment.chunks@),
            segment_rate(segment.chunks@),
            final(model),
            result,
        ),
        input_error(
            old(model).loaded(),
            concat_samples(segment.chunks@).len(),
            segment_rate(segment.chunks@),
        ) is Some ==> result is Err,
        result matches Ok(t) ==> trim(t.text@) == t.text@,
{
    let samples = segment.get_samples();
    let sample_rate = segment.sample_rate();
    model.transcribe(samples.as_slice(), sample_rate)
}

/// The rate a segment is transcribed at: that of its first chunk; 16 kHz
/// where it has none.
pub open spec fn segment_rate(chunks: Seq<AudioChunk>) -> u32 {
    if chunks.len() > 0 {
        chunks[0].sample_rate
    } else {
        MODEL_SAMPLE_RATE
    }
}

} // verus!
