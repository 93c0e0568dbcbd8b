//! A model that makes up its transcriptions from the length of the audio.

use super::runtime::{check_transcribe_input, input_error, ModelConfig, ModelInfo, ModelRuntime, Transcription};
use crate::audio::buffer::Sample;
use crate::text::{concat3, decimal, decimal_string, lemma_text_end, lemma_text_start, trim};
use crate::{Error, ErrorKind};
use vstd::prelude::*;

verus! {

/// The confidence the mock reports, in thousandths.
pub const MOCK_CONFIDENCE: u16 = 950;

/// The length of `len` samples at 16 kHz in tenths of a second, rounded
/// to the nearest tenth.
pub open spec fn duration_tenths(len: nat) -> nat {
    (len * 10 + 8000) / 16000
}

/// A number of tenths with one decimal: `15` is "1.5".
pub open spec fn one_decimal(tenths: nat) -> Seq<char> {
    decimal(tenths / 10) + "."@ + decimal(tenths % 10)
}

/// The text the mock returns for `len` samples at 16 kHz: audio under
/// half a second is too short; under two seconds it gets the short
/// sentence; the rest gets the long one.
pub open spec fn mock_text(len: nat) -> Seq<char> {
    if len * 2 < 16000 {
        "[too short]"@
    } else if len < 32000 {
        "[Mock transcription of "@ + one_decimal(duration_tenths(len)) + "s audio]"@
    } else {
        "[Mock transcription: This is a simulated transcription of "@ + one_decimal(
            duration_tenths(len),
        ) + " seconds of audio.]"@
    }
}

/// The number of tokens the mock reports: two for each full second, one
/// for a remaining half.
pub open spec fn mock_tokens(len: nat) -> nat {
    len * 2 / 16000
}

/// A model for trying the pipeline out: it needs no model file.
pub struct MockModel {
    is_loaded: bool,
    config: Option<ModelConfig>,
    transcription_count: usize,
}

impl MockModel {
    /// A mock that is not loaded.
    pub fn new() -> (model: Self)
        ensures
            !model.loaded(),
            model.spec_config() is None,
    {
        MockModel { is_loaded: false, config: None, transcription_count: 0 }
    }

    /// The settings it was loaded with.
    pub closed spec fn spec_config(&self) -> Option<ModelConfig> {
        self.config
    }
}

impl Default for MockModel {
    fn default() -> (model: Self)
        ensures
            !model.loaded(),
    {
        Self::new()
    }
}

/// A text in square brackets has no white space around it.
proof fn lemma_bracketed_is_trimmed(text: Seq<char>)
    requires
        text.len() >= 2,
        text[0] == '[',
        text.last() == ']',
    ensures
        trim(text) == text,
{
    lemma_text_start(text, 0);
    lemma_text_end(text, text.len() as int);
    assert(text.subrange(0, text.len() as int) =~= text);
}

impl ModelRuntime for MockModel {
    closed spec fn loaded(&self) -> bool {
        self.is_loaded
    }

    open spec fn loads(pre: &Self, config: ModelConfig, post: &Self, result: Result<(), Error>) -> bool {
        result is Ok && post.spec_config() == Some(config)
    }

    open spec fn transcribes(
        pre: &Self,
        samples: Seq<Sample>,
        sample_rate: u32,
        post: &Self,
        result: Result<Transcription, Error>,
    ) -> bool {
        &&& post.loaded() == pre.loaded()
        &&& match input_error(pre.loaded(), samples.len(), sample_rate) {
            Some(message) => {
                &&& result matches Err(e)
                &&& e.spec_kind() == ErrorKind::Model
                &&& e.spec_message() == message
            },
            None => {
                &&& result matches Ok(t)
                &&& t.text@ == mock_text(samples.len())
                &&& t.language matches Some(l)
                &&& l@ == "en"@
                &&& t.confidence == Some(MOCK_CONFIDENCE)
                &&& t.processing_time_ms == 0
                &&& t.tokens matches Some(n)
                &&& n == mock_tokens(samples.len())
            },
        }
    }

    fn load(&mut self, config: ModelConfig) -> (result: Result<(), Error>) {
        self.config = Some(config);
        self.is_loaded = true;
        Ok(())
    }

    fn is_loaded(&self) -> (b: bool) {
        self.is_loaded
    }

    fn transcribe(&mut self, samples: &[Sample], sample_rate: u32) -> (result: Result<
        Transcription,
        Error,
    >) {
        let checked = check_transcribe_input(self.is_loaded, samples.len(), sample_rate);
        match checked {
            Err(e) => {
                return Err(e);
            },
            Ok(_) => {},
        }
        let len: u128 = samples.len() as u128;
        let tenths: u128 = (len * 10 + 8000) / 16000;
        let whole = decimal_string((tenths / 10) as u64);
        let part = decimal_string((tenths % 10) as u64);
        let number = concat3(whole.as_str(), ".", part.as_str());
        let text = if len * 2 < 16000 {
            "[too short]".to_owned()
        } else if len < 32000 {
            concat3("[Mock transcription of ", number.as_str(), "s audio]")
        } else {
            concat3(
                "[Mock transcription: This is a simulated transcription of ",
                number.as_str(),
                " seconds of audio.]",
            )
        };
        proof {
            reveal_strlit("[too short]");
            reveal_strlit("[Mock transcription of ");
            reveal_strlit("s audio]");
            reveal_strlit("[Mock transcription: This is a simulated transcription of ");
            reveal_strlit(" seconds of audio.]");
            lemma_bracketed_is_trimmed(text@);
        }
        let tokens: u128 = len * 2 / 16000;
        Ok(
            Transcription {
                text,
                language: Some("en".to_owned()),
                confidence: Some(MOCK_CONFIDENCE),
                processing_time_ms: 0,
                tokens: Some(tokens as usize),
            },
        )
    }

    fn unload(&mut self) {
        self.is_loaded = false;
        self.config = None;
        self.transcription_count = 0;
    }

    fn name(&self) -> (name: &str)
        ensures
            name@ == "Mock Model (Testing Only)"@,
    {
        "Mock Model (Testing Only)"
    }

    fn info(&self) -> (info: ModelInfo)
        ensures
            info.name@ == "mock-model"@,
            info.size_bytes == 0,
            info.model_type@ == "mock"@,
            info.backend@ == "mock"@,
            !info.gpu_enabled,
    {
        ModelInfo {
            name: "mock-model".to_owned(),
            size_bytes: 0,
            model_type: "mock".to_owned(),
            backend: "mock".to_owned(),
            gpu_enabled: false,
        }
    }
}

} // verus!
