//! The Whisper back end on ONNX: the token bookkeeping of its decoder
//! loop. The networks are run by the program, which hands each token it
//! chose to the loop and is told whether to go on.

use super::runtime::{check_transcribe_input, input_error, ModelInfo};
use crate::text::concat;
use crate::audio::buffer::Sample;
use crate::platform::paths::{join, path_join};
use crate::vad::processor::keep_last;
use crate::{Error, ErrorKind};
use vstd::prelude::*;

verus! {

/// Samples in a second.
pub const SAMPLE_RATE: usize = 16000;

/// The size of the transform's window, in samples.
pub const N_FFT: usize = 400;

/// The step between two frames, in samples.
pub const HOP_LENGTH: usize = 160;

/// The number of mel bins.
pub const N_MELS: usize = 80;

/// The length of the audio a model takes at once, in seconds.
pub const CHUNK_LENGTH: usize = 30;

/// The number of samples a model takes at once.
pub const N_SAMPLES: usize = 480_000;

/// The number of frames in that many samples.
pub const N_FRAMES: usize = 3000;

/// The token that ends a transcript.
pub const EOT_TOKEN: i64 = 50256;

/// The token that starts a transcript.
pub const SOT_TOKEN: i64 = 50257;

/// The token for English.
pub const ENGLISH_TOKEN: i64 = 50258;

/// The token for the task of translating.
pub const TRANSLATE_TOKEN: i64 = 50357;

/// The token for the task of transcribing.
pub const TRANSCRIBE_TOKEN: i64 = 50358;

/// The token that switches time stamps off.
pub const NO_TIMESTAMPS_TOKEN: i64 = 50362;

/// The first of the time stamp tokens.
pub const TIMESTAMP_BEGIN: i64 = 50363;

/// The most steps the decoder takes, and the most tokens it keeps.
pub const MAX_LENGTH: usize = 448;

/// How often a token may follow itself before decoding stops.
pub const MAX_CONSECUTIVE_REPEATS: usize = 5;

/// How many of the latest tokens are looked at for patterns.
pub const RECENT_TOKENS: usize = 10;

/// The step after which the end of the transcript is favoured.
pub const EOT_BOOST_AFTER: usize = 20;

/// The tokens every transcript starts with.
pub open spec fn prompt() -> Seq<i64> {
    seq![SOT_TOKEN, ENGLISH_TOKEN, TRANSCRIBE_TOKEN, NO_TIMESTAMPS_TOKEN]
}

/// Whether the last six tokens go back and forth between two different
/// tokens.
pub open spec fn alternates_thrice(recent: Seq<i64>) -> bool {
    let n = recent.len() as int;
    &&& n >= 6
    &&& recent[n - 1] == recent[n - 3]
    &&& recent[n - 1] == recent[n - 5]
    &&& recent[n - 2] == recent[n - 4]
    &&& recent[n - 2] == recent[n - 6]
    &&& recent[n - 1] != recent[n - 2]
}

/// Whether the last eight tokens go back and forth between two different
/// tokens.
pub open spec fn alternates_four_times(recent: Seq<i64>) -> bool {
    let n = recent.len() as int;
    &&& n >= 8
    &&& alternates_thrice(recent)
    &&& recent[n - 1] == recent[n - 7]
    &&& recent[n - 2] == recent[n - 8]
}

/// How often `token` occurs in `tokens`.
pub open spec fn occurrences(tokens: Seq<i64>, token: i64) -> nat
    decreases tokens.len(),
{
    if tokens.len() == 0 {
        0
    } else {
        occurrences(tokens.drop_last(), token) + if tokens.last() == token {
            1nat
        } else {
            0nat
        }
    }
}

/// The decoder loop's state, as contracts see it.
pub struct DecodeState {
    /// The tokens kept: the prompt and what was decoded after it.
    pub tokens: Seq<i64>,
    /// Every token taken so far, time stamps included.
    pub seen: Seq<i64>,
    /// How often the last token has followed itself.
    pub repeats: nat,
    /// The steps taken.
    pub step: nat,
    /// Whether decoding has stopped.
    pub stopped: bool,
}

impl DecodeState {
    /// The state before the first step.
    pub open spec fn initial() -> DecodeState {
        DecodeState { tokens: prompt(), seen: Seq::empty(), repeats: 0, step: 0, stopped: false }
    }

    /// Whether another token is wanted.
    pub open spec fn wants_more(self) -> bool {
        !self.stopped && self.step < MAX_LENGTH
    }

    /// The state after the network chose `next`. Decoding stops at the
    /// end-of-transcript token, when a token has followed itself more
    /// than five times, when the latest tokens go back and forth between
    /// two tokens three times over or more, and when more tokens are kept
    /// than allowed. A time stamp token is taken note of and not kept.
    pub open spec fn advance(self, next: i64) -> DecodeState {
        if !self.wants_more() {
            self
        } else if next == EOT_TOKEN {
            DecodeState { stopped: true, step: self.step + 1, ..self }
        } else {
            let repeats = if self.seen.len() > 0 && self.seen.last() == next {
                self.repeats + 1
            } else {
                0
            };
            let recent = keep_last(self.seen.push(next), RECENT_TOKENS as nat);
            if repeats > MAX_CONSECUTIVE_REPEATS || alternates_four_times(recent)
                || alternates_thrice(recent) {
                DecodeState { stopped: true, step: self.step + 1, ..self }
            } else if next >= TIMESTAMP_BEGIN {
                DecodeState { seen: self.seen.push(next), repeats, step: self.step + 1, ..self }
            } else {
                DecodeState {
                    tokens: self.tokens.push(next),
                    seen: self.seen.push(next),
                    repeats,
                    step: self.step + 1,
                    stopped: self.tokens.len() + 1 > MAX_LENGTH,
                }
            }
        }
    }

    /// The tokens of the text: what was kept after the prompt, without
    /// time stamps and the end-of-transcript token.
    pub open spec fn text_tokens(self) -> Seq<i64> {
        self.tokens.skip(4).filter(|t: i64| t < TIMESTAMP_BEGIN && t != EOT_TOKEN)
    }

    /// What holds of every state that can be reached.
    pub open spec fn inv(self) -> bool {
        &&& self.step <= MAX_LENGTH
        &&& self.tokens.len() >= 4
        &&& self.tokens.len() <= 4 + self.step
        &&& self.seen.len() <= self.step
        &&& self.repeats <= self.step
        &&& self.tokens.take(4) == prompt()
    }
}

/// The test a token passes where it belongs to the text.
pub open spec fn is_text_token() -> spec_fn(i64) -> bool {
    |t: i64| t < TIMESTAMP_BEGIN && t != EOT_TOKEN
}

/// Every step keeps the invariant, and the loop ends after 448 steps at
/// the latest.
pub proof fn lemma_advance_keeps_inv(state: DecodeState, next: i64)
    requires
        state.inv(),
    ensures
        state.advance(next).inv(),
        state.wants_more() ==> state.advance(next).step == state.step + 1,
        !state.wants_more() ==> state.advance(next) == state,
{
    let after = state.advance(next);
    if state.wants_more() {
        assert(after.tokens.take(4) =~= state.tokens.take(4));
    }
}

/// The decoder loop.
pub struct Decoding {
    tokens: Vec<i64>,
    seen: Vec<i64>,
    consecutive_repeats: usize,
    step: usize,
    stopped: bool,
}

impl View for Decoding {
    type V = DecodeState;

    closed spec fn view(&self) -> DecodeState {
        DecodeState {
            tokens: self.tokens@,
            seen: self.seen@,
            repeats: self.consecutive_repeats as nat,
            step: self.step as nat,
            stopped: self.stopped,
        }
    }
}

/// Whether the last six tokens go back and forth between two tokens.
fn goes_back_and_forth(recent: &Vec<i64>) -> (b: bool)
    ensures
        b == alternates_thrice(recent@),
        alternates_four_times(recent@) ==> b,
{
    let n = recent.len();
    n >= 6 && recent[n - 1] == recent[n - 3] && recent[n - 1] == recent[n - 5] && recent[n - 2]
        == recent[n - 4] && recent[n - 2] == recent[n - 6] && recent[n - 1] != recent[n - 2]
}

impl Decoding {
    /// Whether the state is one that can be reached.
    pub open spec fn wf(&self) -> bool {
        self@.inv()
    }

    /// The loop before its first step. The language makes no difference:
    /// the models decoded here are English ones.
    pub fn new(language: &str) -> (decoding: Self)
        ensures
            decoding.wf(),
            decoding@ == DecodeState::initial(),
    {
        let mut tokens: Vec<i64> = Vec::new();
        tokens.push(SOT_TOKEN);
        tokens.push(ENGLISH_TOKEN);
        tokens.push(TRANSCRIBE_TOKEN);
        tokens.push(NO_TIMESTAMPS_TOKEN);
        assert(tokens@ =~= prompt());
        assert(tokens@.take(4) =~= prompt());
        Decoding { tokens, seen: Vec::new(), consecutive_repeats: 0, step: 0, stopped: false }
    }

    /// Whether another token is wanted.
    pub fn wants_more(&self) -> (b: bool)
        ensures
            b == self@.wants_more(),
    {
        !self.stopped && self.step < MAX_LENGTH
    }

    /// The tokens the decoder is run on next.
    pub fn tokens(&self) -> (tokens: &Vec<i64>)
        ensures
            tokens@ == self@.tokens,
    {
        &self.tokens
    }

    /// The steps taken.
    pub fn step(&self) -> (step: usize)
        ensures
            step == self@.step,
    {
        self.step
    }

    /// Every token taken so far.
    pub fn seen(&self) -> (seen: &Vec<i64>)
        ensures
            seen@ == self@.seen,
    {
        &self.seen
    }

    /// How often a token was taken so far; the more often, the less the
    /// network's score for it counts.
    pub fn count_of(&self, token: i64) -> (count: usize)
        ensures
            count == occurrences(self@.seen, token),
    {
        let mut count: usize = 0;
        let mut i: usize = 0;
        assert(self.seen@.take(0) =~= Seq::<i64>::empty());
        while i < self.seen.len()
            invariant
                i <= self.seen@.len(),
                count <= i,
                count == occurrences(self.seen@.take(i as int), token),
            decreases self.seen@.len() - i,
        {
            proof {
                assert(self.seen@.take(i + 1).drop_last() =~= self.seen@.take(i as int));
            }
            if self.seen[i] == token {
                count = count + 1;
            }
            i = i + 1;
        }
        assert(self.seen@.take(self.seen@.len() as int) =~= self.seen@);
        count
    }

    /// Whether the end of the transcript is favoured from now on.
    pub fn boosts_end(&self) -> (b: bool)
        ensures
            b == (self@.step > EOT_BOOST_AFTER),
    {
        self.step > EOT_BOOST_AFTER
    }

    /// Takes the token the network chose and returns whether another one
    /// is wanted.
    pub fn on_token(&mut self, next: i64) -> (more: bool)
        requires
            old(self).wf(),
        ensures
            final(self).wf(),
            final(self)@ == old(self)@.advance(next),
            more == final(self)@.wants_more(),
    {
        proof {
            lemma_advance_keeps_inv(self@, next);
        }
        if !self.wants_more() {
            return false;
        }
        self.step = self.step + 1;
        if next == EOT_TOKEN {
            self.stopped = true;
            return false;
        }
        let repeats: usize = if self.seen.len() > 0 && self.seen[self.seen.len() - 1] == next {
            self.consecutive_repeats + 1
        } else {
            0
        };
        let mut recent: Vec<i64> = Vec::new();
        let from: usize = if self.seen.len() + 1 > RECENT_TOKENS {
            self.seen.len() + 1 - RECENT_TOKENS
        } else {
            0
        };
        let mut i: usize = from;
        while i < self.seen.len()
            invariant
                from <= i <= self.seen@.len(),
                recent@ == self.seen@.subrange(from as int, i as int),
            decreases self.seen@.len() - i,
        {
            recent.push(self.seen[i]);
            assert(recent@ =~= self.seen@.subrange(from as int, i + 1));
            i = i + 1;
        }
        recent.push(next);
        assert(recent@ =~= keep_last(old(self)@.seen.push(next), RECENT_TOKENS as nat));
        if repeats > MAX_CONSECUTIVE_REPEATS || goes_back_and_forth(&recent) {
            self.stopped = true;
            return false;
        }
        self.consecutive_repeats = repeats;
        self.seen.push(next);
        if next < TIMESTAMP_BEGIN {
            self.tokens.push(next);
            if self.tokens.len() > MAX_LENGTH {
                self.stopped = true;
            }
        }
        self.wants_more()
    }

    /// The tokens of the text decoded so far.
    pub fn text_tokens(&self) -> (tokens: Vec<i64>)
        requires
            self.wf(),
        ensures
            tokens@ == self@.tokens.skip(4).filter(is_text_token()),
    {
        let mut kept: Vec<i64> = Vec::new();
        let ghost rest = self.tokens@.skip(4);
        let mut i: usize = 4;
        assert(rest.take(0).filter(is_text_token()) =~= Seq::<i64>::empty()) by {
            reveal(Seq::filter);
        }
        while i < self.tokens.len()
            invariant
                4 <= i <= self.tokens@.len(),
                rest == self.tokens@.skip(4),
                kept@ == rest.take(i - 4).filter(is_text_token()),
            decreases self.tokens@.len() - i,
        {
            let t = self.tokens[i];
            proof {
                assert(rest.take(i - 4 + 1) =~= rest.take(i - 4).push(t));
                rest.take(i - 4).lemma_filter_push(t, is_text_token());
            }
            if t < TIMESTAMP_BEGIN && t != EOT_TOKEN {
                kept.push(t);
            }
            i = i + 1;
        }
        assert(rest.take(rest.len() as int) =~= rest);
        kept
    }
}

/// The Whisper ONNX back end's state.
pub struct WhisperOnnx {
    loaded: bool,
    model_id: String,
}

/// Where the ONNX runtime's library is looked for, in order.
pub open spec fn runtime_library_places() -> Seq<Seq<char>> {
    seq![
        "/opt/homebrew/lib/libonnxruntime.dylib"@,
        "/opt/homebrew/Cellar/onnxruntime/1.24.2/lib/libonnxruntime.dylib"@,
        "/usr/local/lib/libonnxruntime.dylib"@,
        "/usr/lib/libonnxruntime.dylib"@,
    ]
}

impl WhisperOnnx {
    /// Whether the networks are loaded.
    pub closed spec fn loaded(&self) -> bool {
        self.loaded
    }

    /// The model loaded.
    pub closed spec fn model_id(&self) -> Seq<char> {
        self.model_id@
    }

    /// A back end with nothing loaded.
    pub fn new() -> (result: Result<Self, Error>)
        ensures
            result matches Ok(backend) && !backend.loaded() && backend.model_id().len() == 0,
    {
        Ok(WhisperOnnx { loaded: false, model_id: String::new() })
    }

    /// Where the ONNX runtime's library is looked for, in order; the first
    /// place where a file exists is taken.
    pub fn ensure_onnx_runtime_available() -> (places: Vec<String>)
        ensures
            places@.len() == 4,
            forall|i: int| 0 <= i < 4 ==> (#[trigger] places@[i])@ == runtime_library_places()[i],
    {
        let mut places: Vec<String> = Vec::new();
        places.push("/opt/homebrew/lib/libonnxruntime.dylib".to_owned());
        places.push("/opt/homebrew/Cellar/onnxruntime/1.24.2/lib/libonnxruntime.dylib".to_owned());
        places.push("/usr/local/lib/libonnxruntime.dylib".to_owned());
        places.push("/usr/lib/libonnxruntime.dylib".to_owned());
        places
    }

    /// The encoder's and the decoder's file in a model's directory.
    pub fn load_model(model_dir: &str) -> (files: (String, String))
        ensures
            files.0@ == path_join(model_dir@, "onnx/encoder_model.onnx"@),
            files.1@ == path_join(model_dir@, "onnx/decoder_model_merged.onnx"@),
    {
        (join(model_dir, "onnx/encoder_model.onnx"), join(model_dir, "onnx/decoder_model_merged.onnx"))
    }

    /// Records that the networks of `model_id` are loaded.
    pub fn loaded_with(&mut self, model_id: String)
        ensures
            final(self).loaded(),
            final(self).model_id() == model_id@,
    {
        self.loaded = true;
        self.model_id = model_id;
    }

    /// Whether the networks are loaded.
    pub fn is_loaded(&self) -> (b: bool)
        ensures
            b == self.loaded(),
    {
        self.loaded
    }

    /// Forgets the networks.
    pub fn unload(&mut self)
        ensures
            !final(self).loaded(),
            final(self).model_id() == old(self).model_id(),
    {
        self.loaded = false;
    }

    /// What the back end says of itself: its name ends with the model
    /// loaded.
    pub fn info(&self) -> (info: ModelInfo)
        ensures
            info.name@ == "whisper-onnx-"@ + self.model_id(),
            info.size_bytes == 0,
            info.model_type@ == "whisper"@,
            info.backend@ == "onnx"@,
            !info.gpu_enabled,
    {
        ModelInfo {
            name: concat("whisper-onnx-", self.model_id.as_str()),
            size_bytes: 0,
            model_type: "whisper".to_owned(),
            backend: "onnx".to_owned(),
            gpu_enabled: false,
        }
    }

    /// The back end's name.
    pub fn name(&self) -> (name: &'static str)
        ensures
            name@ == "whisper-onnx"@,
    {
        "whisper-onnx"
    }

    /// Checks a request to transcribe: the networks are loaded, the rate
    /// is 16 kHz and there are samples.
    pub fn check_request(&self, len: usize, sample_rate: u32) -> (result: Result<(), Error>)
        ensures
            match input_error(self.loaded(), len as nat, sample_rate) {
                None => result is Ok,
                Some(message) => {
                    &&& result matches Err(e)
                    &&& e.spec_kind() == ErrorKind::Model
                    &&& e.spec_message() == message
                },
            },
    {
        check_transcribe_input(self.loaded, len, sample_rate)
    }

    /// The samples a model takes at once: the first thirty seconds of the
    /// input, with silence after it where it is shorter.
    pub fn pad(samples: &[Sample]) -> (padded: Vec<Sample>)
        ensures
            padded@.len() == N_SAMPLES,
            forall|i: int|
                0 <= i < N_SAMPLES ==> padded@[i] == if i < samples@.len() {
                    samples@[i]
                } else {
                    0
                },
    {
        let mut padded: Vec<Sample> = Vec::new();
        let mut i: usize = 0;
        while i < N_SAMPLES
            invariant
                i <= N_SAMPLES,
                padded@.len() == i,
                forall|k: int|
                    0 <= k < i ==> padded@[k] == if k < samples@.len() {
                        samples@[k]
                    } else {
                        0
                    },
            decreases N_SAMPLES - i,
        {
            if i < samples.len() {
                padded.push(samples[i]);
            } else {
                padded.push(0);
            }
            i = i + 1;
        }
        padded
    }
}

} // verus!
