//! Turns token identifiers back into text, with the GPT-2 vocabulary that
//! Whisper models use.

use crate::text::{is_whitespace, join_spaced, push_spaced, string_of, char_is_whitespace, chars_of};
use crate::{Error, ErrorKind};
use std::collections::{HashMap, HashSet};
use vstd::prelude::*;

verus! {

/// The first of Whisper's special tokens.
pub const FIRST_SPECIAL_TOKEN: i64 = 50256;

/// The last of Whisper's special tokens.
pub const LAST_SPECIAL_TOKEN: i64 = 50362;

/// The character the vocabulary writes in place of a space.
pub const SPACE_MARK: char = '\u{120}';

/// Whether `c` separates words: white space, or the vocabulary's mark for
/// a space.
pub open spec fn is_gap(c: char) -> bool {
    is_whitespace(c) || c == SPACE_MARK
}

/// The words of `s`: the runs between gaps. Runs may be empty.
pub open spec fn words_of(s: Seq<char>) -> Seq<Seq<char>>
    decreases s.len(),
{
    if s.len() == 0 {
        seq![Seq::empty()]
    } else {
        let front = words_of(s.drop_last());
        if is_gap(s.last()) {
            front.push(Seq::empty())
        } else {
            front.drop_last().push(front.last().push(s.last()))
        }
    }
}

/// `s` with every gap turned into a single space and none at either end.
pub open spec fn normalized(s: Seq<char>) -> Seq<char> {
    join_spaced(words_of(s))
}

/// What one token adds to the text: its entry in the vocabulary, or
/// nothing where it is special or unknown.
pub open spec fn token_text(vocab: Map<i64, String>, special: Set<i64>, token: i64) -> Seq<char> {
    if special.contains(token) || !vocab.contains_key(token) {
        Seq::empty()
    } else {
        vocab[token]@
    }
}

/// What the tokens add up to, before gaps are tidied.
pub open spec fn raw_text(vocab: Map<i64, String>, special: Set<i64>, tokens: Seq<i64>) -> Seq<
    char,
>
    decreases tokens.len(),
{
    if tokens.len() == 0 {
        Seq::empty()
    } else {
        raw_text(vocab, special, tokens.drop_last()) + token_text(vocab, special, tokens.last())
    }
}

/// The text the tokens stand for.
pub open spec fn decoded(vocab: Map<i64, String>, special: Set<i64>, tokens: Seq<i64>) -> Seq<
    char,
> {
    normalized(raw_text(vocab, special, tokens))
}

/// The tidied form of a run of characters.
pub fn normalize(chars: &Vec<char>) -> (text: Vec<char>)
    ensures
        text@ == normalized(chars@),
{
    let mut text: Vec<char> = Vec::new();
    let mut word: Vec<char> = Vec::new();
    let ghost mut done: Seq<Seq<char>> = Seq::empty();
    let mut i: usize = 0;
    assert(chars@.take(0) =~= Seq::<char>::empty());
    assert(done.push(word@) =~= seq![Seq::<char>::empty()]);
    while i < chars.len()
        invariant
            i <= chars@.len(),
            done.push(word@) == words_of(chars@.take(i as int)),
            text@ == join_spaced(done),
        decreases chars@.len() - i,
    {
        let c = chars[i];
        proof {
            assert(chars@.take(i + 1).drop_last() =~= chars@.take(i as int));
            assert(done.push(word@).drop_last() =~= done);
        }
        if char_is_whitespace(c) || c == SPACE_MARK {
            push_spaced(&mut text, &word);
            proof {
                assert(done.push(word@).drop_last() =~= done);
                done = done.push(word@);
            }
            word = Vec::new();
        } else {
            word.push(c);
        }
        i = i + 1;
    }
    assert(chars@.take(chars@.len() as int) =~= chars@);
    push_spaced(&mut text, &word);
    assert(done.push(word@).drop_last() =~= done);
    text
}

/// The pairs of text and token in a vocabulary, as contracts see them.
pub open spec fn pairs_of(entries: Seq<(String, i64)>) -> Seq<(Seq<char>, i64)> {
    entries.map_values(|pair: (String, i64)| (pair.0@, pair.1))
}

/// What `serde_json` reads from the text of a vocabulary file: where the
/// text is a JSON object whose values are all integers of at most 64
/// bits, its pairs of key and value, in the order of the keys; else
/// nothing.
pub uninterp spec fn json_vocabulary(text: Seq<char>) -> Option<Seq<(Seq<char>, i64)>>;

/// Parses the text of a vocabulary file. `serde_json::from_str` reads the
/// text as a `BTreeMap` from text to integer, whose pairs are then handed
/// out in the map's order; where it reports an error, nothing comes back.
/// What comes back depends on the text alone.
#[verifier::external_body]
fn read_vocabulary(content: &str) -> (entries: Option<Vec<(String, i64)>>)
    ensures
        match entries {
            Some(pairs) => json_vocabulary(content@) == Some(pairs_of(pairs@)),
            None => json_vocabulary(content@) is None,
        },
{
    match serde_json::from_str::<std::collections::BTreeMap<String, i64>>(content) {
        Ok(map) => Some(map.into_iter().collect()),
        Err(_) => None,
    }
}

/// A tokenizer: a vocabulary from token to text, and the tokens that are
/// passed over.
pub struct SimpleTokenizer {
    vocab: HashMap<i64, String>,
    special_tokens: HashSet<i64>,
}

impl SimpleTokenizer {
    /// The vocabulary.
    pub closed spec fn vocab(&self) -> Map<i64, String> {
        self.vocab@
    }

    /// The tokens that are passed over.
    pub closed spec fn special(&self) -> Set<i64> {
        self.special_tokens@
    }

    /// The tokenizer used where no vocabulary file can be read: see
    /// [`SimpleTokenizer::minimal_fallback`].
    pub fn new() -> (tokenizer: Self)
        ensures
            tokenizer.is_minimal(),
    {
        Self::minimal_fallback()
    }

    /// Whether this is the minimal tokenizer: the printable ASCII
    /// characters under their own codes, and three special tokens.
    pub open spec fn is_minimal(&self) -> bool {
        &&& forall|t: i64| self.vocab().contains_key(t) <==> 32 <= t < 127
        &&& forall|t: i64|
            32 <= t < 127 ==> (#[trigger] self.vocab()[t])@ == seq![t as u8 as char]
        &&& forall|t: i64| self.special().contains(t) <==> 50256 <= t <= 50258
    }

    /// A tokenizer that knows the printable ASCII characters only.
    pub fn minimal_fallback() -> (tokenizer: Self)
        ensures
            tokenizer.is_minimal(),
    {
        broadcast use vstd::std_specs::hash::group_hash_axioms;

        let mut vocab: HashMap<i64, String> = HashMap::new();
        let mut i: u8 = 32;
        while i < 127
            invariant
                32 <= i <= 127,
                forall|t: i64| vocab@.contains_key(t) <==> 32 <= t < i,
                forall|t: i64| 32 <= t < i ==> (#[trigger] vocab@[t])@ == seq![t as u8 as char],
            decreases 127 - i,
        {
            let mut one: Vec<char> = Vec::new();
            one.push(i as char);
            let text = string_of(&one);
            assert(text@ =~= seq![i as char]);
            vocab.insert(i as i64, text);
            i = i + 1;
        }
        let mut special_tokens: HashSet<i64> = HashSet::new();
        special_tokens.insert(50256);
        special_tokens.insert(50257);
        special_tokens.insert(50258);
        SimpleTokenizer { vocab, special_tokens }
    }

    /// Whether the tokenizer holds the vocabulary of these pairs of text
    /// and token, and all of Whisper's special tokens. Where a token comes
    /// twice, the later pair counts.
    pub open spec fn holds(&self, entries: Seq<(Seq<char>, i64)>) -> bool {
        &&& forall|t: i64|
            self.special().contains(t) <==> FIRST_SPECIAL_TOKEN <= t <= LAST_SPECIAL_TOKEN
        &&& forall|t: i64|
            self.vocab().contains_key(t) <==> exists|k: int|
                0 <= k < entries.len() && entries[k].1 == t
        &&& forall|k: int|
            #![trigger entries[k]]
            0 <= k < entries.len() && (forall|j: int|
                k < j < entries.len() ==> entries[j].1 != entries[k].1)
                ==> self.vocab()[entries[k].1]@ == entries[k].0
    }

    /// A tokenizer with the vocabulary of a vocabulary file, given as
    /// pairs of text and token, and all of Whisper's special tokens. Where
    /// a token comes twice, the later pair counts.
    pub fn from_entries(entries: Vec<(String, i64)>) -> (tokenizer: Self)
        ensures
            tokenizer.holds(pairs_of(entries@)),
    {
        broadcast use vstd::std_specs::hash::group_hash_axioms;

        let mut vocab: HashMap<i64, String> = HashMap::new();
        let mut i: usize = 0;
        while i < entries.len()
            invariant
                i <= entries@.len(),
                forall|t: i64|
                    vocab@.contains_key(t) <==> exists|k: int| 0 <= k < i && entries@[k].1 == t,
                forall|k: int|
                    #![trigger entries@[k]]
                    0 <= k < i && (forall|j: int| k < j < i ==> entries@[j].1 != entries@[k].1)
                        ==> vocab@[entries@[k].1]@ == entries@[k].0@,
            decreases entries@.len() - i,
        {
            let token = entries[i].1;
            let text = entries[i].0.clone();
            let ghost before = vocab@;
            vocab.insert(token, text);
            proof {
                assert forall|t: i64| vocab@.contains_key(t) implies exists|k: int|
                    0 <= k < i + 1 && entries@[k].1 == t by {
                    if t == token {
                        assert(entries@[i as int].1 == t);
                    } else {
                        assert(before.contains_key(t));
                        let k = choose|k: int| 0 <= k < i && entries@[k].1 == t;
                        assert(0 <= k < i + 1 && entries@[k].1 == t);
                    }
                }
                assert forall|k: int|
                    #![trigger entries@[k]]
                    0 <= k < i + 1 && (forall|j: int|
                        k < j < i + 1 ==> entries@[j].1 != entries@[k].1) implies vocab@[entries@[k].1]@
                    == entries@[k].0@ by {
                    if k < i {
                        assert(entries@[i as int].1 != entries@[k].1);
                        assert(forall|j: int| k < j < i ==> entries@[j].1 != entries@[k].1);
                    }
                }
            }
            i = i + 1;
        }
        let mut special_tokens: HashSet<i64> = HashSet::new();
        let mut t: i64 = FIRST_SPECIAL_TOKEN;
        while t <= LAST_SPECIAL_TOKEN
            invariant
                FIRST_SPECIAL_TOKEN <= t <= LAST_SPECIAL_TOKEN + 1,
                forall|s: i64| special_tokens@.contains(s) <==> FIRST_SPECIAL_TOKEN <= s < t,
            decreases LAST_SPECIAL_TOKEN + 1 - t,
        {
            special_tokens.insert(t);
            t = t + 1;
        }
        proof {
            let pairs = pairs_of(entries@);
            assert forall|k: int| 0 <= k < pairs.len() implies #[trigger] pairs[k] == (
                entries@[k].0@,
                entries@[k].1,
            ) by {}
            assert forall|t: i64| vocab@.contains_key(t) implies exists|k: int|
                0 <= k < pairs.len() && pairs[k].1 == t by {
                let k = choose|k: int| 0 <= k < entries@.len() && entries@[k].1 == t;
                assert(pairs[k].1 == t);
            }
            assert forall|t: i64|
                (exists|k: int| 0 <= k < pairs.len() && pairs[k].1 == t) implies vocab@.contains_key(
                t,
            ) by {
                let k = choose|k: int| 0 <= k < pairs.len() && pairs[k].1 == t;
                assert(entries@[k].1 == t);
            }
            assert forall|k: int|
                #![trigger pairs[k]]
                0 <= k < pairs.len() && (forall|j: int|
                    k < j < pairs.len() ==> pairs[j].1 != pairs[k].1) implies vocab@[pairs[k].1]@
                == pairs[k].0 by {
                assert forall|j: int| k < j < entries@.len() implies entries@[j].1
                    != entries@[k].1 by {
                    assert(pairs[j].1 != pairs[k].1);
                }
                assert(entries@[k].1 == pairs[k].1);
            }
        }
        SimpleTokenizer { vocab, special_tokens }
    }

    /// A tokenizer with the vocabulary in the text of a vocabulary file: a
    /// JSON object that gives each piece of text its token. Text that is
    /// no such object is an error.
    pub fn from_file(content: &str) -> (result: Result<Self, Error>)
        ensures
            match json_vocabulary(content@) {
                Some(entries) => result matches Ok(tokenizer) && tokenizer.holds(entries),
                None => {
                    &&& result matches Err(e)
                    &&& e.spec_kind() == ErrorKind::Other
                    &&& e.spec_message() == "Failed to parse vocab.json"@
                },
            },
    {
        match read_vocabulary(content) {
            Some(entries) => Ok(Self::from_entries(entries)),
            None => Err(Error::Other("Failed to parse vocab.json".to_owned())),
        }
    }

    /// The text a run of tokens stands for. Special tokens and tokens the
    /// vocabulary does not know are passed over; gaps are tidied.
    pub fn decode(&self, tokens: &[i64]) -> (result: Result<String, Error>)
        ensures
            result matches Ok(text) && text@ == decoded(self.vocab(), self.special(), tokens@),
    {
        broadcast use vstd::std_specs::hash::group_hash_axioms;

        let mut raw: Vec<char> = Vec::new();
        let mut i: usize = 0;
        assert(tokens@.take(0) =~= Seq::<i64>::empty());
        while i < tokens.len()
            invariant
                i <= tokens@.len(),
                raw@ == raw_text(self.vocab(), self.special(), tokens@.take(i as int)),
            decreases tokens@.len() - i,
        {
            let token = tokens[i];
            proof {
                assert(tokens@.take(i + 1).drop_last() =~= tokens@.take(i as int));
            }
            if !self.special_tokens.contains(&token) {
                match self.vocab.get(&token) {
                    Some(token_str) => {
                        let piece = chars_of(token_str.as_str());
                        let ghost base = raw@;
                        let mut j: usize = 0;
                        while j < piece.len()
                            invariant
                                j <= piece@.len(),
                                raw@ == base + piece@.take(j as int),
                            decreases piece@.len() - j,
                        {
                            raw.push(piece[j]);
                            assert(raw@ =~= base + piece@.take(j + 1));
                            j = j + 1;
                        }
                        assert(piece@.take(piece@.len() as int) =~= piece@);
                    },
                    None => {},
                }
            }
            assert(raw@ =~= raw_text(self.vocab(), self.special(), tokens@.take(i + 1)));
            i = i + 1;
        }
        assert(tokens@.take(tokens@.len() as int) =~= tokens@);
        let text = normalize(&raw);
        Ok(string_of(&text))
    }
}

impl Default for SimpleTokenizer {
    fn default() -> (tokenizer: Self)
        ensures
            tokenizer.is_minimal(),
    {
        Self::new()
    }
}

} // verus!
