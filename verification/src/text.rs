//! Plain-text measures used by the adapter: blankness, whitespace-delimited
//! words and the encoded length of a text.

use vstd::prelude::*;
use vstd::utf8::{char_is_scalar, encode_utf8, encode_utf8_decode_utf8};

verus! {

/// Whether `c` carries the Unicode `White_Space` property.
pub open spec fn is_white_space(c: char) -> bool {
    let n = c as u32;
    ||| 0x09 <= n <= 0x0D
    ||| n == 0x20
    ||| n == 0x85
    ||| n == 0xA0
    ||| n == 0x1680
    ||| 0x2000 <= n <= 0x200A
    ||| n == 0x2028
    ||| n == 0x2029
    ||| n == 0x202F
    ||| n == 0x205F
    ||| n == 0x3000
}

/// `char::is_whitespace` of the standard library. Its documentation defines
/// whitespace as the Unicode `White_Space` property; the contract spells that
/// property out as the code points of [`is_white_space`].
pub assume_specification[ char::is_whitespace ](c: char) -> (b: bool)
    ensures
        b == is_white_space(c),
;

/// A text is blank when it is empty or holds nothing but whitespace.
pub open spec fn is_blank(s: Seq<char>) -> bool {
    forall|i: int| 0 <= i < s.len() ==> is_white_space(#[trigger] s[i])
}

/// A word starts at `i` when `s[i]` is no whitespace and stands first in the
/// text or right after whitespace.
pub open spec fn is_word_start(s: Seq<char>, i: int) -> bool {
    &&& 0 <= i < s.len()
    &&& !is_white_space(s[i])
    &&& (i == 0 || is_white_space(s[i - 1]))
}

/// The positions of `s` at which a word starts.
pub open spec fn word_starts(s: Seq<char>) -> Set<int> {
    Set::new(|i: int| is_word_start(s, i))
}

/// The number of whitespace-delimited words in `s`: the number of positions
/// at which a word starts.
pub open spec fn word_count(s: Seq<char>) -> nat {
    word_starts(s).len()
}

/// The words of `s` counted from its end backwards, one for each position
/// at which a word starts.
pub open spec fn words_along(s: Seq<char>) -> nat
    decreases s.len(),
{
    if s.len() == 0 {
        0
    } else if is_word_start(s, s.len() - 1) {
        words_along(s.drop_last()) + 1
    } else {
        words_along(s.drop_last())
    }
}

/// The number of bytes that `c` takes in UTF-8.
pub open spec fn utf8_width(c: char) -> nat {
    let n = c as u32;
    if n < 0x80 {
        1
    } else if n < 0x800 {
        2
    } else if n < 0x1_0000 {
        3
    } else {
        4
    }
}

/// The number of bytes that `s` takes in UTF-8.
pub open spec fn utf8_len(s: Seq<char>) -> nat
    decreases s.len(),
{
    if s.len() == 0 {
        0
    } else {
        utf8_width(s[0]) + utf8_len(s.drop_first())
    }
}

/// A count as a 32-bit signed field holds it: the low 32 bits of `n`, read
/// in two's complement. Counts below 2^31 stand unchanged.
pub open spec fn wrap_i32(n: int) -> int {
    let low = n % 0x1_0000_0000;
    if low < 0x8000_0000 {
        low
    } else {
        low - 0x1_0000_0000
    }
}

/// Counting along the text gives the word count, and the word starts are
/// finitely many.
pub proof fn lemma_words_along_is_word_count(s: Seq<char>)
    ensures
        word_starts(s).finite(),
        words_along(s) == word_count(s),
    decreases s.len(),
{
    if s.len() == 0 {
        assert(word_starts(s) =~= Set::empty());
    } else {
        let t = s.drop_last();
        let last = s.len() - 1;
        lemma_words_along_is_word_count(t);
        assert forall|i: int| i != last implies is_word_start(s, i) == is_word_start(t, i) by {}
        assert(!word_starts(t).contains(last));
        if is_word_start(s, last) {
            assert(word_starts(s) =~= word_starts(t).insert(last));
        } else {
            assert(word_starts(s) =~= word_starts(t));
        }
    }
}

/// Extending a prefix of `s` by one character adds one word exactly when a
/// word starts at that character.
pub proof fn lemma_word_count_step(s: Seq<char>, k: int)
    requires
        0 <= k < s.len(),
    ensures
        word_count(s.take(k + 1)) == word_count(s.take(k)) + if is_word_start(s, k) {
            1nat
        } else {
            0nat
        },
{
    let t = s.take(k + 1);
    assert(t.drop_last() =~= s.take(k));
    assert(is_word_start(t, k) == is_word_start(s, k));
    lemma_words_along_is_word_count(t);
    lemma_words_along_is_word_count(s.take(k));
}

/// A text has at most as many words as characters.
pub proof fn lemma_word_count_bound(s: Seq<char>)
    ensures
        word_count(s) <= s.len(),
    decreases s.len(),
{
    lemma_words_along_is_word_count(s);
    if s.len() > 0 {
        lemma_word_count_bound(s.drop_last());
        lemma_words_along_is_word_count(s.drop_last());
    }
}

/// A text is blank exactly when it holds no word.
pub proof fn lemma_blank_iff_no_word(s: Seq<char>)
    ensures
        is_blank(s) <==> word_count(s) == 0,
{
    lemma_words_along_is_word_count(s);
    if is_blank(s) {
        assert(word_starts(s) =~= Set::empty());
    } else {
        let first = choose|i: int| 0 <= i < s.len() && !is_white_space(s[i]);
        lemma_first_visible_starts_a_word(s, first);
        let start = choose|i: int| is_word_start(s, i);
        assert(word_starts(s).contains(start));
    }
}

/// At or before a character that is no whitespace, a word starts.
proof fn lemma_first_visible_starts_a_word(s: Seq<char>, at: int)
    requires
        0 <= at < s.len(),
        !is_white_space(s[at]),
    ensures
        exists|i: int| is_word_start(s, i),
    decreases at,
{
    if at == 0 || is_white_space(s[at - 1]) {
        assert(is_word_start(s, at));
    } else {
        lemma_first_visible_starts_a_word(s, at - 1);
    }
}

/// The encoded length of a text is the length of its UTF-8 encoding.
pub proof fn lemma_utf8_len_is_encoded_len(s: Seq<char>)
    ensures
        utf8_len(s) == encode_utf8(s).len(),
    decreases s.len(),
{
    if s.len() > 0 {
        lemma_utf8_len_is_encoded_len(s.drop_first());
        char_is_scalar(s[0]);
    }
}

/// The encoded length lies between the number of characters and four times
/// that number.
pub proof fn lemma_utf8_len_bounds(s: Seq<char>)
    ensures
        s.len() <= utf8_len(s) <= 4 * s.len(),
    decreases s.len(),
{
    if s.len() > 0 {
        lemma_utf8_len_bounds(s.drop_first());
    }
}

/// A character at the end of a text adds its width to the encoded length.
pub proof fn lemma_utf8_len_push(s: Seq<char>, c: char)
    ensures
        utf8_len(s.push(c)) == utf8_len(s) + utf8_width(c),
    decreases s.len(),
{
    if s.len() == 0 {
        assert(s.push(c).drop_first() =~= s);
    } else {
        lemma_utf8_len_push(s.drop_first(), c);
        assert(s.push(c).drop_first() =~= s.drop_first().push(c));
    }
}

/// Whether `text` is empty or holds nothing but whitespace.
pub fn is_blank_text(text: &str) -> (blank: bool)
    ensures
        blank == is_blank(text@),
{
    let mut blank: bool = true;
    for c in it: text.chars()
        invariant
            it.seq() == text@,
            blank == (forall|i: int| 0 <= i < it.index() ==> is_white_space(#[trigger] text@[i])),
    {
        if !c.is_whitespace() {
            blank = false;
        }
    }
    blank
}

/// Whether two texts hold the same characters.
pub fn same_text(a: &str, b: &str) -> (same: bool)
    ensures
        same == (a@ == b@),
{
    let x = a.as_bytes();
    let y = b.as_bytes();
    proof {
        encode_utf8_decode_utf8(a@);
        encode_utf8_decode_utf8(b@);
    }
    if x.len() != y.len() {
        return false;
    }
    let mut i: usize = 0;
    while i < x.len()
        invariant
            i <= x.len(),
            x.len() == y.len(),
            x@ == encode_utf8(a@),
            y@ == encode_utf8(b@),
            forall|j: int| 0 <= j < i ==> x@[j] == y@[j],
        decreases x.len() - i,
    {
        if x[i] != y[i] {
            return false;
        }
        i += 1;
    }
    assert(x@ =~= y@);
    true
}

/// The number of bytes of `text`.
pub fn encoded_len(text: &str) -> (n: usize)
    ensures
        n == utf8_len(text@),
{
    proof {
        lemma_utf8_len_is_encoded_len(text@);
    }
    text.as_bytes().len()
}

/// The number of whitespace-delimited words of `text`.
pub fn count_words(text: &str) -> (n: usize)
    ensures
        n == word_count(text@),
{
    let ghost s = text@;
    let bound: usize = encoded_len(text);
    proof {
        lemma_utf8_len_bounds(s);
        assert(word_starts(s.take(0)) =~= Set::empty());
    }
    let mut n: usize = 0;
    let mut in_word: bool = false;
    for c in it: text.chars()
        invariant
            it.seq() == s,
            s.len() <= bound,
            n == word_count(s.take(it.index())),
            in_word == (it.index() > 0 && !is_white_space(s[it.index() - 1])),
    {
        proof {
            lemma_word_count_step(s, it.index());
            lemma_word_count_bound(s.take(it.index()));
        }
        let space: bool = c.is_whitespace();
        if !space && !in_word {
            n = n + 1;
        }
        in_word = !space;
    }
    assert(s.take(s.len() as int) =~= s);
    n
}

/// `n` as a 32-bit signed count, wrapping where it does not fit.
pub fn wrapped_count(n: usize) -> (count: i32)
    ensures
        count == wrap_i32(n as int),
{
    let low: u64 = (n as u64) % 0x1_0000_0000;
    if low < 0x8000_0000 {
        low as i32
    } else {
        (low as i64 - 0x1_0000_0000) as i32
    }
}

} // verus!
