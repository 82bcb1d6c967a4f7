//! Finding the first word of a string: once as a position, once as a slice
//! of the original string.  Positions are counted in characters, and a word
//! ends at the first space.

use vstd::prelude::*;

verus! {

/// The index of the first space at or after `from`, or `s.len()` if there
/// is none: where the first word of the remaining text ends.
pub open spec fn word_end(s: Seq<char>, from: int) -> int
    recommends
        0 <= from <= s.len(),
    decreases s.len() - from,
        when 0 <= from <= s.len()
{
    if from >= s.len() {
        s.len() as int
    } else if s[from] == ' ' {
        from
    } else {
        word_end(s, from + 1)
    }
}

proof fn lemma_word_end_bounds(s: Seq<char>, from: int)
    requires
        0 <= from <= s.len(),
    ensures
        from <= word_end(s, from) <= s.len(),
    decreases s.len() - from,
{
    if from < s.len() && s[from] != ' ' {
        lemma_word_end_bounds(s, from + 1);
    }
}

proof fn lemma_word_end_at(s: Seq<char>, from: int, j: int)
    requires
        0 <= from <= j <= s.len(),
        forall|k: int| from <= k < j ==> s[k] != ' ',
        j == s.len() || s[j] == ' ',
    ensures
        word_end(s, from) == j,
    decreases j - from,
{
    if from >= s.len() {
    } else if s[from] == ' ' {
        assert(from == j);
    } else {
        assert(from < j);
        lemma_word_end_at(s, from + 1, j);
    }
}

/// The position just past the first word: the index of the first space, or
/// the length of the string when it holds a single word.
pub fn first_word1(s: &str) -> (i: usize)
    ensures
        i == word_end(s@, 0),
{
    let n = s.unicode_len();
    let mut i: usize = 0;
    while i < n
        invariant
            i <= n,
            n == s@.len(),
            forall|k: int| 0 <= k < i ==> s@[k] != ' ',
        decreases n - i,
    {
        if s.get_char(i) == ' ' {
            proof {
                lemma_word_end_at(s@, 0, i as int);
            }
            return i;
        }
        i += 1;
    }
    proof {
        lemma_word_end_at(s@, 0, n as int);
    }
    n
}

/// The first word itself, as a slice of the original string.  Returning a
/// slice rather than a position keeps the result from going out of sync
/// with the string it was cut from.
pub fn first_word2<'a>(s: &'a str) -> (w: &'a str)
    ensures
        w@ == s@.subrange(0, word_end(s@, 0)),
{
    let i = first_word1(s);
    proof {
        lemma_word_end_bounds(s@, 0);
    }
    s.substring_char(0, i)
}

/// A string literal is a slice pointing into the program's binary; that is
/// why literals are immutable by design.
pub fn _string_literal() {
    let _s = "Hello World";
}

} // verus!
