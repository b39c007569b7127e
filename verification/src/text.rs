//! Character classification and word counting.
//!
//! The editor breaks visual lines and word boundaries at whitespace.
//! `is_white` is the Unicode `White_Space` set, written out so that every
//! contract over it is a closed formula on the character's code point.

use vstd::prelude::*;

verus! {

/// The Unicode `White_Space` code points.
pub open spec fn is_white(c: char) -> bool {
    let u = c as u32;
    ||| (0x09 <= u && u <= 0x0D)
    ||| u == 0x20
    ||| u == 0x85
    ||| u == 0xA0
    ||| u == 0x1680
    ||| (0x2000 <= u && u <= 0x200A)
    ||| u == 0x2028
    ||| u == 0x2029
    ||| u == 0x202F
    ||| u == 0x205F
    ||| u == 0x3000
}

/// Decides whether `c` is whitespace for wrapping and word boundaries.
pub fn char_is_white(c: char) -> (b: bool)
    ensures
        b == is_white(c),
{
    let u = c as u32;
    (0x09 <= u && u <= 0x0D) || u == 0x20 || u == 0x85 || u == 0xA0 || u == 0x1680
        || (0x2000 <= u && u <= 0x200A) || u == 0x2028 || u == 0x2029 || u == 0x202F
        || u == 0x205F || u == 0x3000
}

/// Number of words (maximal runs of non-whitespace) among the first `n`
/// characters of `s`: a word is counted at the index where it starts.
pub open spec fn words_upto(s: Seq<char>, n: int) -> int
    decreases n,
{
    if n <= 0 || n > s.len() {
        0
    } else {
        words_upto(s, n - 1) + if !is_white(s[n - 1]) && (n - 1 == 0 || is_white(s[n - 2])) {
            1int
        } else {
            0int
        }
    }
}

/// Number of words in `s`.
pub open spec fn word_tally(s: Seq<char>) -> int {
    words_upto(s, s.len() as int)
}

/// Counts the words of `s`: maximal runs of non-whitespace characters.
pub fn count_words(s: &Vec<char>) -> (n: usize)
    ensures
        n == word_tally(s@),
{
    let mut n: usize = 0;
    let mut i: usize = 0;
    let mut prev_white: bool = true;
    while i < s.len()
        invariant
            i <= s@.len(),
            n == words_upto(s@, i as int),
            n <= i,
            prev_white == (i == 0 || is_white(s@[i - 1])),
        decreases s@.len() - i,
    {
        let w = char_is_white(s[i]);
        if !w && prev_white {
            n = n + 1;
        }
        prev_white = w;
        i = i + 1;
    }
    n
}

/// Two sequences that agree on their first `n` characters tally the same
/// words there.
pub proof fn lemma_words_upto_agree(s1: Seq<char>, s2: Seq<char>, n: int)
    requires
        n <= s1.len(),
        n <= s2.len(),
        forall|i: int| 0 <= i < n ==> s1[i] == s2[i],
    ensures
        words_upto(s1, n) == words_upto(s2, n),
    decreases n,
{
    if n > 0 {
        lemma_words_upto_agree(s1, s2, n - 1);
    }
}

/// Words never span a whitespace separator: tallying `a + [c] + b` up to
/// `j` characters into `b` counts the words of `a` plus the words of `b`'s
/// first `j` characters.
proof fn lemma_words_upto_across_separator(a: Seq<char>, c: char, b: Seq<char>, j: int)
    requires
        is_white(c),
        0 <= j <= b.len(),
    ensures
        words_upto(a + seq![c] + b, a.len() + 1 + j) == word_tally(a) + words_upto(b, j),
    decreases j,
{
    let full = a + seq![c] + b;
    if j == 0 {
        assert(full[a.len() as int] == c);
        assert(words_upto(full, a.len() + 1int) == words_upto(full, a.len() as int));
        lemma_words_upto_agree(full, a, a.len() as int);
    } else {
        lemma_words_upto_across_separator(a, c, b, j - 1);
        let m = a.len() + j;
        assert(full[m] == b[j - 1]);
        if j == 1 {
            assert(full[m - 1] == c);
        } else {
            assert(full[m - 1] == b[j - 2]);
        }
    }
}

/// A single whitespace character splits the word tally: the words of
/// `a + [c] + b` are the words of `a` plus the words of `b`.
pub proof fn lemma_word_tally_split(a: Seq<char>, c: char, b: Seq<char>)
    requires
        is_white(c),
    ensures
        word_tally(a + seq![c] + b) == word_tally(a) + word_tally(b),
{
    lemma_words_upto_across_separator(a, c, b, b.len() as int);
}

} // verus!
