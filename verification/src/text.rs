//! Small verified helpers on text: joining, character access, decimal
//! numerals and whitespace.

use vstd::prelude::*;
use vstd::string::StringExecFns;

verus! {

/// `a` followed by `b`.
pub fn concat(a: &str, b: &str) -> (s: String)
    ensures
        s@ == a@ + b@,
{
    let mut s = String::from_str(a);
    s.append(b);
    s
}

/// `a`, `b` and `c` in a row.
pub fn concat3(a: &str, b: &str, c: &str) -> (s: String)
    ensures
        s@ == a@ + b@ + c@,
{
    let mut s = String::from_str(a);
    s.append(b);
    s.append(c);
    s
}

/// The characters of `s`, in order.
pub fn chars_of(s: &str) -> (v: Vec<char>)
    ensures
        v@ == s@,
{
    let mut v: Vec<char> = Vec::new();
    for c in it: s.chars()
        invariant
            v@ == it.seq().take(it.index() as int),
            it.seq() == s@,
    {
        proof {
            it.seq().lemma_take_succ_push(it.index() as int);
        }
        v.push(c);
    }
    assert(v@ =~= s@);
    v
}

/// Whether two strings hold the same characters.
pub fn same_text(a: &str, b: &str) -> (same: bool)
    ensures
        same == (a@ == b@),
{
    let x = chars_of(a);
    let y = chars_of(b);
    same_chars(&x, &y)
}

/// Whether two runs of characters are equal.
pub fn same_chars(x: &Vec<char>, y: &Vec<char>) -> (same: bool)
    ensures
        same == (x@ == y@),
{
    if x.len() != y.len() {
        return false;
    }
    let mut i: usize = 0;
    while i < x.len()
        invariant
            i <= x@.len(),
            x@.len() == y@.len(),
            forall|k: int| 0 <= k < i ==> x@[k] == y@[k],
        decreases x@.len() - i,
    {
        if x[i] != y[i] {
            return false;
        }
        i = i + 1;
    }
    assert(x@ =~= y@);
    true
}

/// Whether `c` is white space, as Unicode defines it.
pub open spec fn is_whitespace(c: char) -> bool {
    let u = c as u32;
    ||| 0x09 <= u <= 0x0D
    ||| u == 0x20
    ||| u == 0x85
    ||| u == 0xA0
    ||| u == 0x1680
    ||| 0x2000 <= u <= 0x200A
    ||| u == 0x2028
    ||| u == 0x2029
    ||| u == 0x202F
    ||| u == 0x205F
    ||| u == 0x3000
}

/// Whether `c` is white space.
pub fn char_is_whitespace(c: char) -> (b: bool)
    ensures
        b == is_whitespace(c),
{
    let u: u32 = c as u32;
    (0x09 <= u && u <= 0x0D) || u == 0x20 || u == 0x85 || u == 0xA0 || u == 0x1680 || (0x2000 <= u
        && u <= 0x200A) || u == 0x2028 || u == 0x2029 || u == 0x202F || u == 0x205F || u == 0x3000
}

/// Whether every character of `s` is white space.
pub open spec fn is_blank(s: Seq<char>) -> bool {
    forall|i: int| 0 <= i < s.len() ==> is_whitespace(#[trigger] s[i])
}

/// Where the text of `s` begins: the index of its first character that is
/// not white space, or its length where there is none.
pub open spec fn text_start(s: Seq<char>) -> int
    decreases s.len(),
{
    if s.len() == 0 || !is_whitespace(s[0]) {
        0
    } else {
        1 + text_start(s.drop_first())
    }
}

/// Where the text of `s` ends: one past the index of its last character
/// that is not white space, or zero where there is none.
pub open spec fn text_end(s: Seq<char>) -> int
    decreases s.len(),
{
    if s.len() == 0 || !is_whitespace(s.last()) {
        s.len() as int
    } else {
        text_end(s.drop_last())
    }
}

/// `s` without the white space at its beginning and its end.
pub open spec fn trim(s: Seq<char>) -> Seq<char> {
    if text_start(s) >= text_end(s) {
        Seq::empty()
    } else {
        s.subrange(text_start(s), text_end(s))
    }
}

/// `text_start` is `a` where the first `a` characters are white space and
/// the next one, if there is one, is not.
pub proof fn lemma_text_start(s: Seq<char>, a: int)
    requires
        0 <= a <= s.len(),
        forall|k: int| 0 <= k < a ==> is_whitespace(#[trigger] s[k]),
        a < s.len() ==> !is_whitespace(s[a]),
    ensures
        text_start(s) == a,
    decreases s.len(),
{
    if a > 0 {
        let rest = s.drop_first();
        assert forall|k: int| 0 <= k < a - 1 implies is_whitespace(#[trigger] rest[k]) by {
            assert(rest[k] == s[k + 1]);
        }
        lemma_text_start(rest, a - 1);
    }
}

/// `text_end` is `b` where the characters from `b` on are white space and
/// the one before, if there is one, is not.
pub proof fn lemma_text_end(s: Seq<char>, b: int)
    requires
        0 <= b <= s.len(),
        forall|k: int| b <= k < s.len() ==> is_whitespace(#[trigger] s[k]),
        b > 0 ==> !is_whitespace(s[b - 1]),
    ensures
        text_end(s) == b,
    decreases s.len(),
{
    if b < s.len() {
        let rest = s.drop_last();
        assert forall|k: int| b <= k < rest.len() implies is_whitespace(#[trigger] rest[k]) by {
            assert(rest[k] == s[k]);
        }
        lemma_text_end(rest, b);
    }
}

/// A text is blank exactly where nothing is left of it once trimmed.
pub proof fn lemma_blank_trims_to_nothing(s: Seq<char>)
    ensures
        is_blank(s) <==> trim(s).len() == 0,
    decreases s.len(),
{
    lemma_text_bounds(s);
    let a = text_start(s);
    let b = text_end(s);
    if is_blank(s) {
        lemma_text_start(s, s.len() as int);
        lemma_text_end(s, 0);
    } else {
        let i = choose|i: int| 0 <= i < s.len() && !is_whitespace(s[i]);
        assert(a <= i);
        assert(i < b);
    }
}

/// Where a text begins and where it ends: all before the beginning and
/// all from the end on is white space.
pub proof fn lemma_text_bounds(s: Seq<char>)
    ensures
        0 <= text_start(s) <= s.len(),
        0 <= text_end(s) <= s.len(),
        forall|k: int| 0 <= k < text_start(s) ==> is_whitespace(#[trigger] s[k]),
        forall|k: int| text_end(s) <= k < s.len() ==> is_whitespace(#[trigger] s[k]),
    decreases s.len(),
{
    if s.len() > 0 {
        if is_whitespace(s[0]) {
            let rest = s.drop_first();
            lemma_text_bounds(rest);
            assert forall|k: int| 0 <= k < text_start(s) implies is_whitespace(
                #[trigger] s[k],
            ) by {
                if k > 0 {
                    assert(s[k] == rest[k - 1]);
                }
            }
        }
        if is_whitespace(s.last()) {
            let rest = s.drop_last();
            lemma_text_bounds(rest);
            assert forall|k: int| text_end(s) <= k < s.len() implies is_whitespace(
                #[trigger] s[k],
            ) by {
                if k < s.len() - 1 {
                    assert(s[k] == rest[k]);
                }
            }
        }
    }
}

/// The characters of `v` from `from` up to `to`.
pub fn subrange_chars(v: &Vec<char>, from: usize, to: usize) -> (part: Vec<char>)
    requires
        from <= to <= v@.len(),
    ensures
        part@ == v@.subrange(from as int, to as int),
{
    let mut part: Vec<char> = Vec::new();
    let mut i: usize = from;
    while i < to
        invariant
            from <= i <= to <= v@.len(),
            part@ == v@.subrange(from as int, i as int),
        decreases to - i,
    {
        part.push(v[i]);
        assert(part@ =~= v@.subrange(from as int, i + 1));
        i = i + 1;
    }
    part
}

/// `v` without the white space at its beginning and its end.
pub fn trim_chars(v: &Vec<char>) -> (trimmed: Vec<char>)
    ensures
        trimmed@ == trim(v@),
{
    let mut a: usize = 0;
    while a < v.len() && char_is_whitespace(v[a])
        invariant
            a <= v@.len(),
            forall|k: int| 0 <= k < a ==> is_whitespace(#[trigger] v@[k]),
        decreases v@.len() - a,
    {
        a = a + 1;
    }
    let mut b: usize = v.len();
    while b > 0 && char_is_whitespace(v[b - 1])
        invariant
            b <= v@.len(),
            forall|k: int| b <= k < v@.len() ==> is_whitespace(#[trigger] v@[k]),
        decreases b,
    {
        b = b - 1;
    }
    proof {
        lemma_text_start(v@, a as int);
        lemma_text_end(v@, b as int);
    }
    if a >= b {
        Vec::new()
    } else {
        subrange_chars(v, a, b)
    }
}

/// Where the first word of `s` ends, counted from where it begins: the
/// number of characters up to the first white space.
pub open spec fn word_len(s: Seq<char>) -> int
    decreases s.len(),
{
    if s.len() == 0 || is_whitespace(s[0]) {
        0
    } else {
        1 + word_len(s.drop_first())
    }
}

/// The first word of `s`: what stands between the white space at its
/// beginning and the next white space. Empty where `s` is blank.
pub open spec fn first_word(s: Seq<char>) -> Seq<char> {
    let start = text_start(s);
    s.subrange(start, start + word_len(s.skip(start)))
}

proof fn lemma_word_len(s: Seq<char>, n: int)
    requires
        0 <= n <= s.len(),
        forall|k: int| 0 <= k < n ==> !is_whitespace(#[trigger] s[k]),
        n < s.len() ==> is_whitespace(s[n]),
    ensures
        word_len(s) == n,
    decreases s.len(),
{
    if n > 0 {
        let rest = s.drop_first();
        assert forall|k: int| 0 <= k < n - 1 implies !is_whitespace(#[trigger] rest[k]) by {
            assert(rest[k] == s[k + 1]);
        }
        lemma_word_len(rest, n - 1);
    }
}

/// The first word of a run of characters.
pub fn first_word_of(chars: &Vec<char>) -> (word: Vec<char>)
    ensures
        word@ == first_word(chars@),
{
    let mut a: usize = 0;
    while a < chars.len() && char_is_whitespace(chars[a])
        invariant
            a <= chars@.len(),
            forall|k: int| 0 <= k < a ==> is_whitespace(#[trigger] chars@[k]),
        decreases chars@.len() - a,
    {
        a = a + 1;
    }
    let mut b: usize = a;
    while b < chars.len() && !char_is_whitespace(chars[b])
        invariant
            a <= b <= chars@.len(),
            forall|k: int| a <= k < b ==> !is_whitespace(#[trigger] chars@[k]),
        decreases chars@.len() - b,
    {
        b = b + 1;
    }
    proof {
        lemma_text_start(chars@, a as int);
        let rest = chars@.skip(a as int);
        assert forall|k: int| 0 <= k < b - a implies !is_whitespace(#[trigger] rest[k]) by {
            assert(rest[k] == chars@[a + k]);
        }
        lemma_word_len(rest, b - a);
    }
    subrange_chars(chars, a, b)
}

/// The index of the first `c` in `s`, or the length of `s` where there is
/// none.
pub open spec fn index_of(s: Seq<char>, c: char) -> int
    decreases s.len(),
{
    if s.len() == 0 || s[0] == c {
        0
    } else {
        1 + index_of(s.drop_first(), c)
    }
}

/// `index_of` is `i` where no character before `i` is `c` and the one at
/// `i`, if there is one, is.
pub proof fn lemma_index_of(s: Seq<char>, c: char, i: int)
    requires
        0 <= i <= s.len(),
        forall|k: int| 0 <= k < i ==> #[trigger] s[k] != c,
        i < s.len() ==> s[i] == c,
    ensures
        index_of(s, c) == i,
    decreases s.len(),
{
    if i > 0 {
        let rest = s.drop_first();
        assert forall|k: int| 0 <= k < i - 1 implies #[trigger] rest[k] != c by {
            assert(rest[k] == s[k + 1]);
        }
        lemma_index_of(rest, c, i - 1);
    }
}

/// The index of the first `c` in `v`, or the length of `v`.
pub fn find_char(v: &Vec<char>, c: char) -> (i: usize)
    ensures
        i == index_of(v@, c),
        i <= v@.len(),
{
    let mut i: usize = 0;
    while i < v.len() && v[i] != c
        invariant
            i <= v@.len(),
            forall|k: int| 0 <= k < i ==> #[trigger] v@[k] != c,
        decreases v@.len() - i,
    {
        i = i + 1;
    }
    proof {
        lemma_index_of(v@, c, i as int);
    }
    i
}

/// The pieces of `s` between occurrences of `sep`, in order. There is
/// always one piece more than there are separators; pieces may be empty.
pub open spec fn split_on(s: Seq<char>, sep: char) -> Seq<Seq<char>>
    decreases s.len(),
{
    if s.len() == 0 {
        seq![Seq::empty()]
    } else {
        let front = split_on(s.drop_last(), sep);
        if s.last() == sep {
            front.push(Seq::empty())
        } else {
            front.drop_last().push(front.last().push(s.last()))
        }
    }
}

/// The views of the runs.
pub open spec fn views(runs: Seq<Vec<char>>) -> Seq<Seq<char>> {
    runs.map_values(|run: Vec<char>| run@)
}

/// The pieces of `v` between occurrences of `sep`.
pub fn split_chars(v: &Vec<char>, sep: char) -> (pieces: Vec<Vec<char>>)
    ensures
        views(pieces@) == split_on(v@, sep),
        pieces@.len() >= 1,
{
    let mut pieces: Vec<Vec<char>> = Vec::new();
    let mut current: Vec<char> = Vec::new();
    let mut i: usize = 0;
    assert(v@.take(0) =~= Seq::<char>::empty());
    assert(views(pieces@).push(current@) =~= seq![Seq::<char>::empty()]);
    while i < v.len()
        invariant
            i <= v@.len(),
            views(pieces@).push(current@) == split_on(v@.take(i as int), sep),
        decreases v@.len() - i,
    {
        let c = v[i];
        let ghost done = views(pieces@);
        let ghost held = current@;
        proof {
            assert(v@.take(i + 1).drop_last() =~= v@.take(i as int));
            assert(done.push(held).drop_last() =~= done);
        }
        if c == sep {
            let mut piece: Vec<char> = Vec::new();
            std::mem::swap(&mut piece, &mut current);
            pieces.push(piece);
            assert(views(pieces@) =~= done.push(held));
        } else {
            current.push(c);
        }
        i = i + 1;
    }
    assert(v@.take(v@.len() as int) =~= v@);
    let ghost done = views(pieces@);
    pieces.push(current);
    assert(views(pieces@) =~= done.push(current@));
    pieces
}

/// The parts that are not empty in a row, with one space between
/// neighbours.
pub open spec fn join_spaced(parts: Seq<Seq<char>>) -> Seq<char>
    decreases parts.len(),
{
    if parts.len() == 0 {
        Seq::empty()
    } else {
        let front = join_spaced(parts.drop_last());
        if parts.last().len() == 0 {
            front
        } else if front.len() == 0 {
            parts.last()
        } else {
            front + seq![' '] + parts.last()
        }
    }
}

/// Appends `part` to `text`, after a space where `text` is not empty;
/// nothing where `part` is empty.
pub fn push_spaced(text: &mut Vec<char>, part: &Vec<char>)
    ensures
        final(text)@ == if part@.len() == 0 {
            old(text)@
        } else if old(text)@.len() == 0 {
            part@
        } else {
            old(text)@ + seq![' '] + part@
        },
{
    if part.len() == 0 {
        return ;
    }
    if text.len() > 0 {
        text.push(' ');
    }
    let ghost base = text@;
    let mut i: usize = 0;
    while i < part.len()
        invariant
            i <= part@.len(),
            text@ == base + part@.take(i as int),
        decreases part@.len() - i,
    {
        text.push(part[i]);
        assert(text@ =~= base + part@.take(i + 1));
        i = i + 1;
    }
    assert(part@.take(part@.len() as int) =~= part@);
    assert(old(text)@.len() == 0 ==> base + part@ =~= part@);
    assert(old(text)@.len() > 0 ==> base + part@ =~= old(text)@ + seq![' '] + part@);
}

/// The character of a digit value below ten.
pub open spec fn digit_char(d: nat) -> char {
    if d == 0 {
        '0'
    } else if d == 1 {
        '1'
    } else if d == 2 {
        '2'
    } else if d == 3 {
        '3'
    } else if d == 4 {
        '4'
    } else if d == 5 {
        '5'
    } else if d == 6 {
        '6'
    } else if d == 7 {
        '7'
    } else if d == 8 {
        '8'
    } else {
        '9'
    }
}

/// The decimal numeral of `n`, without leading zeros.
pub open spec fn decimal(n: nat) -> Seq<char>
    decreases n,
{
    if n < 10 {
        seq![digit_char(n)]
    } else {
        decimal(n / 10).push(digit_char(n % 10))
    }
}

fn digit_of(d: u64) -> (c: char)
    requires
        d < 10,
    ensures
        c == digit_char(d as nat),
{
    if d == 0 {
        '0'
    } else if d == 1 {
        '1'
    } else if d == 2 {
        '2'
    } else if d == 3 {
        '3'
    } else if d == 4 {
        '4'
    } else if d == 5 {
        '5'
    } else if d == 6 {
        '6'
    } else if d == 7 {
        '7'
    } else if d == 8 {
        '8'
    } else {
        '9'
    }
}

/// The characters of `chars` as a string.
pub fn string_of(chars: &Vec<char>) -> (s: String)
    ensures
        s@ == chars@,
{
    let mut s = String::new();
    let mut i: usize = 0;
    while i < chars.len()
        invariant
            i <= chars@.len(),
            s@ == chars@.take(i as int),
        decreases chars@.len() - i,
    {
        proof {
            chars@.lemma_take_succ_push(i as int);
        }
        push_char(&mut s, chars[i]);
        i = i + 1;
    }
    assert(chars@.take(chars@.len() as int) =~= chars@);
    s
}

/// Appends one character: `String::push` of the standard library, which
/// adds the character at the end and changes nothing before it.
#[verifier::external_body]
fn push_char(s: &mut String, c: char)
    ensures
        final(s)@ == old(s)@.push(c),
{
    s.push(c);
}

/// The decimal numeral of `n`.
pub fn decimal_string(n: u64) -> (s: String)
    ensures
        s@ == decimal(n as nat),
{
    let mut reversed: Vec<char> = Vec::new();
    let mut rest: u64 = n;
    // The digits come out lowest first; `tail` is what has been taken off.
    let ghost mut tail: Seq<char> = Seq::empty();
    while rest >= 10
        invariant
            decimal(n as nat) == decimal(rest as nat) + tail,
            reversed@.len() == tail.len(),
            forall|k: int| 0 <= k < tail.len() ==> reversed@[k] == tail[tail.len() - 1 - k],
        decreases rest,
    {
        let c = digit_of(rest % 10);
        proof {
            let shorter = decimal((rest / 10) as nat);
            assert(decimal(rest as nat) == shorter.push(c));
            assert(shorter.push(c) + tail =~= shorter + (seq![c] + tail));
            tail = seq![c] + tail;
        }
        reversed.push(c);
        rest = rest / 10;
    }
    let c = digit_of(rest);
    reversed.push(c);
    proof {
        assert(decimal(rest as nat) + tail =~= seq![c] + tail);
        tail = seq![c] + tail;
    }
    let mut digits: Vec<char> = Vec::new();
    let mut i: usize = reversed.len();
    while i > 0
        invariant
            i <= reversed@.len(),
            reversed@.len() == tail.len(),
            forall|k: int| 0 <= k < tail.len() ==> reversed@[k] == tail[tail.len() - 1 - k],
            digits@ == tail.take(tail.len() - i),
        decreases i,
    {
        i = i - 1;
        proof {
            tail.lemma_take_succ_push(tail.len() - 1 - i);
        }
        digits.push(reversed[i]);
    }
    assert(tail.take(tail.len() as int) =~= tail);
    string_of(&digits)
}

} // verus!
