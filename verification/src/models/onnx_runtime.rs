//! The ONNX back end's bookkeeping: the vocabulary, the model's files and
//! the decoding of what the network puts out. The network itself is run
//! by the program.

use super::runtime::{
    check_transcribe_input, input_error, ModelConfig, ModelInfo, Transcription,
};
use crate::text::{concat, concat3, decimal, decimal_string};
use crate::platform::paths::{join, path_join};
use crate::text::{
    chars_of, first_word, first_word_of, is_blank, split_chars, split_on, string_of, trim,
    trim_chars, views,
};
use crate::{Error, ErrorKind};
use vstd::prelude::*;

verus! {

/// The number of mel bins a model takes where its settings do not say.
pub const DEFAULT_MEL_BINS: usize = 80;

/// The length of a frame of audio, in samples: 25 ms at 16 kHz.
pub const WINDOW_SIZE: usize = 400;

/// The step from one frame to the next, in samples: 10 ms at 16 kHz.
pub const HOP_SIZE: usize = 160;

/// The size of the transform a frame goes through.
pub const FFT_SIZE: usize = 512;

/// The field of a model's settings that gives its number of mel bins.
pub const FEATURES_SIZE_KEY: &'static str = "features_size";

/// The number of mel bins for a value of `features_size`, or for none.
pub open spec fn mel_bins_of(features_size: Option<u64>) -> usize {
    match features_size {
        Some(n) => if n <= usize::MAX {
            n as usize
        } else {
            DEFAULT_MEL_BINS
        },
        None => DEFAULT_MEL_BINS,
    }
}

/// What `serde_json` reads under `key` in a JSON text: the number there
/// where the text is an object that holds an unsigned integer of at most
/// 64 bits under that key, nothing where it does not, and the parser's
/// message where the text is not JSON.
pub uninterp spec fn json_unsigned_field(text: Seq<char>, key: Seq<char>) -> Result<
    Option<u64>,
    Seq<char>,
>;

/// Reads one unsigned field of a JSON text. `serde_json::from_str` parses
/// the text into a `serde_json::Value`; `Value::get` looks the key up and
/// `Value::as_u64` reads the number. What comes back depends on the two
/// texts alone: where parsing fails, the text of `serde_json`'s error.
#[verifier::external_body]
fn read_unsigned_field(content: &str, key: &str) -> (result: Result<Option<u64>, String>)
    ensures
        match result {
            Ok(field) => json_unsigned_field(content@, key@) == Ok::<Option<u64>, Seq<char>>(field),
            Err(why) => json_unsigned_field(content@, key@) == Err::<Option<u64>, Seq<char>>(why@),
        },
{
    match serde_json::from_str::<serde_json::Value>(content) {
        Ok(json) => match json.get(key) {
            Some(value) => Ok(value.as_u64()),
            None => Ok(None),
        },
        Err(e) => Err(e.to_string()),
    }
}

/// What is said of audio that is shorter than one frame.
pub open spec fn too_short_message(len: nat) -> Seq<char> {
    "Audio too short: "@ + decimal(len) + " samples (need at least 400)"@
}

/// The number of frames in `len` samples: one for each step of 160
/// samples that leaves room for a frame of 400. Audio shorter than one
/// frame is refused.
pub fn mel_frame_count(len: usize) -> (result: Result<usize, Error>)
    ensures
        len < WINDOW_SIZE ==> (result matches Err(e) && e.spec_kind() == ErrorKind::Model
            && e.spec_message() == too_short_message(len as nat)),
        len >= WINDOW_SIZE ==> result == Ok::<usize, Error>(
            ((len - WINDOW_SIZE) / HOP_SIZE as int + 1) as usize,
        ),
{
    if len < WINDOW_SIZE {
        let number = decimal_string(len as u64);
        return Err(
            Error::Model(concat3("Audio too short: ", number.as_str(), " samples (need at least 400)")),
        );
    }
    Ok((len - WINDOW_SIZE) / HOP_SIZE + 1)
}

/// The time steps and the vocabulary size of the network's output, by its
/// shape, which has to be `[batch, time, vocabulary]` with neither of the
/// last two negative, and has to fit the number of scores there are.
pub fn logits_layout(shape: &[i64], data_len: usize) -> (layout: Option<(usize, usize)>)
    ensures
        match layout {
            Some((time_steps, vocab_size)) => {
                &&& shape@.len() == 3
                &&& shape@[1] == time_steps
                &&& shape@[2] == vocab_size
                &&& time_steps * vocab_size <= data_len
            },
            None => {
                ||| shape@.len() != 3
                ||| shape@[1] < 0
                ||| shape@[2] < 0
                ||| shape@[1] > usize::MAX
                ||| shape@[2] > usize::MAX
                ||| shape@[1] * shape@[2] > data_len
            },
        },
{
    if shape.len() != 3 {
        return None;
    }
    let time = shape[1];
    let vocab = shape[2];
    if time < 0 || vocab < 0 || time as u64 > usize::MAX as u64 || vocab as u64 > usize::MAX as u64 {
        return None;
    }
    assert(0 <= (time as int) * (vocab as int) <= 0x7FFF_FFFF_FFFF_FFFF * 0x7FFF_FFFF_FFFF_FFFF)
        by (nonlinear_arith)
        requires
            0 <= time <= 0x7FFF_FFFF_FFFF_FFFF,
            0 <= vocab <= 0x7FFF_FFFF_FFFF_FFFF,
    ;
    let product: u128 = (time as u128) * (vocab as u128);
    if product > data_len as u128 {
        return None;
    }
    Some((time as usize, vocab as usize))
}

/// The character that opens a word in the vocabulary.
pub const WORD_MARK: char = '\u{2581}';

/// Whether a token of the vocabulary is a special one: written in angle
/// brackets.
pub open spec fn is_special(token: Seq<char>) -> bool {
    token.len() > 0 && token[0] == '<' && token.last() == '>'
}

/// What greedy decoding has got to: the text so far and the token seen
/// last.
pub struct CtcState {
    pub text: Seq<char>,
    pub previous: Option<i64>,
}

/// What a token of the vocabulary adds to the text: a token that opens a
/// word comes without its mark and after a space, unless it is the first;
/// any other is appended as it is.
pub open spec fn with_token(text: Seq<char>, token: Seq<char>) -> Seq<char> {
    if token.len() > 0 && token[0] == WORD_MARK {
        if text.len() > 0 {
            text + seq![' '] + token.drop_first()
        } else {
            token.drop_first()
        }
    } else {
        text + token
    }
}

/// One step of greedy decoding. A token outside the vocabulary is passed
/// over. The blank, which is the vocabulary's last token, adds nothing; a
/// token that repeats the one before adds nothing; a special token adds
/// nothing; any other token adds its text.
pub open spec fn ctc_step(vocab: Seq<Seq<char>>, state: CtcState, id: i64) -> CtcState {
    if id < 0 || id >= vocab.len() {
        state
    } else if id == vocab.len() - 1 {
        CtcState { previous: Some(id), ..state }
    } else if state.previous == Some(id) {
        state
    } else if is_special(vocab[id as int]) {
        CtcState { previous: Some(id), ..state }
    } else {
        CtcState { text: with_token(state.text, vocab[id as int]), previous: Some(id) }
    }
}

/// Greedy decoding of a run of tokens.
pub open spec fn ctc_fold(vocab: Seq<Seq<char>>, ids: Seq<i64>) -> CtcState
    decreases ids.len(),
{
    if ids.len() == 0 {
        CtcState { text: Seq::empty(), previous: None }
    } else {
        ctc_step(vocab, ctc_fold(vocab, ids.drop_last()), ids.last())
    }
}

/// The text a run of tokens decodes to.
pub open spec fn ctc_decoded(vocab: Seq<Seq<char>>, ids: Seq<i64>) -> Seq<char> {
    trim(ctc_fold(vocab, ids).text)
}

/// The texts of the vocabulary, in order.
pub open spec fn vocab_texts(vocab: Seq<String>) -> Seq<Seq<char>> {
    vocab.map_values(|s: String| s@)
}

/// Where the files of a model are looked for in its directory, in order:
/// the quantised encoder first.
pub open spec fn encoder_names() -> Seq<Seq<char>> {
    seq![
        "encoder-model.int8.onnx"@,
        "encoder-model.onnx"@,
        "model.int8.onnx"@,
        "model.onnx"@,
    ]
}

/// The tokens in the lines of a vocabulary file: the first word of each
/// line that is not blank.
pub open spec fn vocab_of_lines(lines: Seq<Seq<char>>) -> Seq<Seq<char>>
    decreases lines.len(),
{
    if lines.len() == 0 {
        Seq::empty()
    } else if is_blank(lines.last()) {
        vocab_of_lines(lines.drop_last())
    } else {
        vocab_of_lines(lines.drop_last()).push(first_word(lines.last()))
    }
}

/// The vocabulary in the text of a vocabulary file, which has a token, and
/// maybe its index after it, on each line.
pub fn parse_vocab(content: &str) -> (vocab: Vec<String>)
    ensures
        vocab_texts(vocab@) == vocab_of_lines(split_on(content@, '\n')),
{
    let chars = chars_of(content);
    let lines = split_chars(&chars, '\n');
    let mut vocab: Vec<String> = Vec::new();
    let mut k: usize = 0;
    assert(views(lines@).take(0) =~= Seq::<Seq<char>>::empty());
    assert(vocab_texts(vocab@) =~= Seq::<Seq<char>>::empty());
    while k < lines.len()
        invariant
            k <= lines@.len(),
            vocab_texts(vocab@) == vocab_of_lines(views(lines@).take(k as int)),
        decreases lines@.len() - k,
    {
        let line = &lines[k];
        proof {
            let all = views(lines@);
            assert(all.take(k + 1).drop_last() =~= all.take(k as int));
            assert(all.take(k + 1).last() == line@);
        }
        let word = first_word_of(line);
        let kept = trim_chars(line);
        proof {
            crate::text::lemma_blank_trims_to_nothing(line@);
        }
        if kept.len() > 0 {
            let ghost before = vocab_texts(vocab@);
            vocab.push(string_of(&word));
            assert(vocab_texts(vocab@) =~= before.push(word@));
        }
        k = k + 1;
    }
    assert(views(lines@).take(lines@.len() as int) =~= views(lines@));
    vocab
}

/// The ONNX back end's state.
pub struct OnnxRuntime {
    session_ready: bool,
    vocab: Option<Vec<String>>,
    config: Option<ModelConfig>,
    model_dir: Option<String>,
    n_mel_bins: usize,
}

impl OnnxRuntime {
    /// The vocabulary, once loaded.
    pub closed spec fn vocab(&self) -> Option<Vec<String>> {
        self.vocab
    }

    /// Whether the network's session is there.
    pub closed spec fn session_ready(&self) -> bool {
        self.session_ready
    }

    /// The number of mel bins the model takes.
    pub closed spec fn mel_bins(&self) -> usize {
        self.n_mel_bins
    }

    /// Whether the model is loaded: the session is there and so is the
    /// vocabulary.
    pub open spec fn loaded(&self) -> bool {
        self.session_ready() && self.vocab() is Some
    }

    /// A back end with nothing loaded, for a model of 80 mel bins.
    pub fn new() -> (result: Result<Self, Error>)
        ensures
            result matches Ok(backend) && !backend.session_ready() && backend.vocab() is None
                && backend.mel_bins() == DEFAULT_MEL_BINS,
    {
        Ok(
            OnnxRuntime {
                session_ready: false,
                vocab: None,
                config: None,
                model_dir: None,
                n_mel_bins: DEFAULT_MEL_BINS,
            },
        )
    }

    /// A back end with this vocabulary and no session.
    pub fn with_vocab(vocab: Vec<String>) -> (backend: Self)
        ensures
            !backend.session_ready(),
            backend.vocab() == Some(vocab),
            backend.mel_bins() == DEFAULT_MEL_BINS,
    {
        OnnxRuntime {
            session_ready: false,
            vocab: Some(vocab),
            config: None,
            model_dir: None,
            n_mel_bins: DEFAULT_MEL_BINS,
        }
    }

    /// Whether the model is loaded.
    pub fn is_loaded(&self) -> (b: bool)
        ensures
            b == self.loaded(),
    {
        self.session_ready && self.vocab.is_some()
    }

    /// The number of mel bins a model's settings ask for: the value of
    /// `features_size`, or 80 where there is none.
    pub fn mel_bins_from(features_size: Option<u64>) -> (bins: usize)
        ensures
            bins == mel_bins_of(features_size),
    {
        match features_size {
            Some(n) => {
                if n <= usize::MAX as u64 {
                    n as usize
                } else {
                    DEFAULT_MEL_BINS
                }
            },
            None => DEFAULT_MEL_BINS,
        }
    }

    /// The number of mel bins of a model whose settings file holds
    /// `config_json`; `None` stands for a model without that file, which
    /// gets 80. Settings that are not JSON are an error.
    pub fn load_model_config(config_json: Option<&str>) -> (result: Result<usize, Error>)
        ensures
            match config_json {
                None => result == Ok::<usize, Error>(DEFAULT_MEL_BINS),
                Some(text) => match json_unsigned_field(text@, FEATURES_SIZE_KEY@) {
                    Ok(field) => result == Ok::<usize, Error>(mel_bins_of(field)),
                    Err(why) => {
                        &&& result matches Err(e)
                        &&& e.spec_kind() == ErrorKind::Model
                        &&& e.spec_message() == "Failed to parse config JSON: "@ + why
                    },
                },
            },
    {
        match config_json {
            None => Ok(DEFAULT_MEL_BINS),
            Some(text) => match read_unsigned_field(text, FEATURES_SIZE_KEY) {
                Ok(field) => Ok(Self::mel_bins_from(field)),
                Err(why) => Err(Error::Model(concat("Failed to parse config JSON: ", why.as_str()))),
            },
        }
    }

    /// Where the encoder is looked for in the model's directory, in this
    /// order; the first file that exists is taken.
    pub fn find_encoder_path(model_dir: &str) -> (places: Vec<String>)
        ensures
            places@.len() == 4,
            forall|i: int|
                0 <= i < 4 ==> (#[trigger] places@[i])@ == path_join(
                    model_dir@,
                    encoder_names()[i],
                ),
    {
        let mut places: Vec<String> = Vec::new();
        places.push(join(model_dir, "encoder-model.int8.onnx"));
        places.push(join(model_dir, "encoder-model.onnx"));
        places.push(join(model_dir, "model.int8.onnx"));
        places.push(join(model_dir, "model.onnx"));
        places
    }

    /// Records what loading brought: the session is there, with this
    /// vocabulary and this number of mel bins. An empty vocabulary is
    /// refused.
    pub fn loaded_with(&mut self, config: ModelConfig, model_dir: String, vocab: Vec<String>, n_mel_bins: usize) -> (result:
        Result<(), Error>)
        ensures
            vocab@.len() == 0 ==> (result matches Err(e) && e.spec_kind() == ErrorKind::Model
                && e.spec_message() == "Vocabulary is empty"@ && *final(self) == *old(self)),
            vocab@.len() > 0 ==> (result is Ok && final(self).session_ready() && final(self).vocab()
                == Some(vocab) && final(self).mel_bins() == n_mel_bins),
    {
        if vocab.len() == 0 {
            return Err(Error::Model("Vocabulary is empty".to_owned()));
        }
        self.vocab = Some(vocab);
        self.config = Some(config);
        self.model_dir = Some(model_dir);
        self.n_mel_bins = n_mel_bins;
        self.session_ready = true;
        Ok(())
    }

    /// Forgets everything loaded.
    pub fn unload(&mut self)
        ensures
            !final(self).session_ready(),
            final(self).vocab() is None,
            final(self).mel_bins() == old(self).mel_bins(),
    {
        self.session_ready = false;
        self.vocab = None;
        self.config = None;
        self.model_dir = None;
    }

    /// The back end's name.
    pub fn name(&self) -> (name: &'static str)
        ensures
            name@ == "onnx-runtime"@,
    {
        "onnx-runtime"
    }

    /// The settings the model was loaded with, once it was.
    pub closed spec fn spec_config(&self) -> Option<ModelConfig> {
        self.config
    }

    /// What the back end says of itself, given the summed size of the
    /// files in the model's directory.
    pub fn info(&self, size_bytes: u64) -> (info: ModelInfo)
        ensures
            info.name@ == "onnx-runtime"@,
            info.size_bytes == size_bytes,
            info.backend@ == "onnx-runtime"@,
            match self.spec_config() {
                Some(config) => info.model_type@ == config.model_path@ && info.gpu_enabled
                    == config.use_gpu,
                None => info.model_type@ == "unknown"@ && !info.gpu_enabled,
            },
    {
        let (model_type, gpu_enabled) = match &self.config {
            Some(config) => (config.model_path.clone(), config.use_gpu),
            None => ("unknown".to_owned(), false),
        };
        ModelInfo {
            name: "onnx-runtime".to_owned(),
            size_bytes,
            model_type,
            backend: "onnx-runtime".to_owned(),
            gpu_enabled,
        }
    }

    /// Checks a request to transcribe: the model is loaded, the rate is
    /// 16 kHz and there are samples.
    pub fn check_request(&self, len: usize, sample_rate: u32) -> (result: Result<(), Error>)
        ensures
            match input_error(self.loaded(), len as nat, sample_rate) {
                None => result is Ok,
                Some(message) => {
                    &&& result matches Err(e)
                    &&& e.spec_kind() == ErrorKind::Model
                    &&& e.spec_message() == message
                },
            },
    {
        check_transcribe_input(self.is_loaded(), len, sample_rate)
    }

    /// The number of frames in a run of mel features of this length.
    pub fn frame_count(&self, features_len: usize) -> (frames: Option<usize>)
        ensures
            frames == if self.mel_bins() == 0 {
                None
            } else {
                Some((features_len / self.mel_bins()) as usize)
            },
    {
        if self.n_mel_bins == 0 {
            None
        } else {
            Some(features_len / self.n_mel_bins)
        }
    }

    /// Makes the transcription of the tokens the network chose: their
    /// decoded text, with the number of time steps as the token count.
    pub fn finish(&self, token_ids: &[i64], processing_time_ms: u64) -> (result: Result<
        Transcription,
        Error,
    >)
        ensures
            match self.vocab() {
                None => result matches Err(e) && e.spec_kind() == ErrorKind::Model
                    && e.spec_message() == "Vocabulary not loaded"@,
                Some(vocab) => result matches Ok(t) && t.text@ == ctc_decoded(
                    vocab_texts(vocab@),
                    token_ids@,
                ) && t.language is None && t.confidence is None && t.processing_time_ms
                    == processing_time_ms && t.tokens == Some(token_ids@.len() as usize),
            },
    {
        match self.decode_ctc_tokens(token_ids) {
            Ok(text) => Ok(
                Transcription {
                    text,
                    language: None,
                    confidence: None,
                    processing_time_ms,
                    tokens: Some(token_ids.len()),
                },
            ),
            Err(e) => Err(e),
        }
    }

    /// Decodes the tokens the network chose, one for each time step, by
    /// greedy decoding: blanks, repeats and special tokens are left out,
    /// and tokens that open a word are set off by a space.
    pub fn decode_ctc_tokens(&self, token_ids: &[i64]) -> (result: Result<String, Error>)
        ensures
            match self.vocab() {
                None => result matches Err(e) && e.spec_kind() == ErrorKind::Model
                    && e.spec_message() == "Vocabulary not loaded"@,
                Some(vocab) => result matches Ok(text) && text@ == ctc_decoded(
                    vocab_texts(vocab@),
                    token_ids@,
                ),
            },
    {
        let vocab = match &self.vocab {
            Some(vocab) => vocab,
            None => {
                return Err(Error::Model("Vocabulary not loaded".to_owned()));
            },
        };
        let ghost texts = vocab_texts(vocab@);
        let mut text: Vec<char> = Vec::new();
        let mut previous: Option<i64> = None;
        let mut i: usize = 0;
        assert(token_ids@.take(0) =~= Seq::<i64>::empty());
        while i < token_ids.len()
            invariant
                i <= token_ids@.len(),
                texts == vocab_texts(vocab@),
                (CtcState { text: text@, previous }) == ctc_fold(texts, token_ids@.take(i as int)),
            decreases token_ids@.len() - i,
        {
            let id = token_ids[i];
            proof {
                assert(token_ids@.take(i + 1).drop_last() =~= token_ids@.take(i as int));
            }
            if id >= 0 && (id as u64) < vocab.len() as u64 {
                let index = id as usize;
                assert(texts[index as int] == vocab@[index as int]@);
                if index == vocab.len() - 1 {
                    previous = Some(id);
                } else {
                    let repeats = match previous {
                        Some(p) => p == id,
                        None => false,
                    };
                    if !repeats {
                        let token = chars_of(vocab[index].as_str());
                        let n = token.len();
                        if n > 0 && token[0] == '<' && token[n - 1] == '>' {
                            previous = Some(id);
                        } else {
                            let ghost before = text@;
                            let from: usize = if n > 0 && token[0] == WORD_MARK {
                                if text.len() > 0 {
                                    text.push(' ');
                                }
                                1
                            } else {
                                0
                            };
                            let ghost base = text@;
                            let mut j: usize = from;
                            while j < n
                                invariant
                                    from <= j <= n,
                                    n == token@.len(),
                                    text@ == base + token@.subrange(from as int, j as int),
                                decreases n - j,
                            {
                                text.push(token[j]);
                                assert(text@ =~= base + token@.subrange(from as int, j + 1));
                                j = j + 1;
                            }
                            proof {
                                if from == 1 {
                                    assert(token@.subrange(1, n as int) =~= token@.drop_first());
                                } else {
                                    assert(token@.subrange(0, n as int) =~= token@);
                                }
                                assert(text@ =~= with_token(before, token@));
                            }
                            previous = Some(id);
                        }
                    }
                }
            }
            i = i + 1;
        }
        assert(token_ids@.take(token_ids@.len() as int) =~= token_ids@);
        let trimmed = trim_chars(&text);
        Ok(string_of(&trimmed))
    }
}

} // verus!
