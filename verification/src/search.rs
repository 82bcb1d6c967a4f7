//! Line-oriented text search: scan a block of content and return the lines
//! that contain a query, in their original order, either by exact substring
//! comparison or case-insensitively.
//!
//! Content is split into lines at `'\n'` terminators; a `'\r'` immediately
//! before a terminator is not part of the line, and a trailing terminator
//! does not produce an extra empty line.  Returned lines always keep their
//! original text, even under case-insensitive search.

use vstd::prelude::*;
use vstd::seq_lib::*;
use crate::seq_facts::{lemma_filter_all_true, lemma_filter_singleton};

verus! {

// ---------------------------------------------------------------------------
// The mathematical model: lines of a character sequence, and substring
// containment.
// ---------------------------------------------------------------------------

/// A line that ended in a terminator loses one carriage return directly
/// before that terminator, if there is one.
pub open spec fn strip_trailing_cr(seg: Seq<char>) -> Seq<char> {
    if seg.len() > 0 && seg.last() == '\r' {
        seg.drop_last()
    } else {
        seg
    }
}

/// The index of the first `'\n'` at or after `from`, or `s.len()` if there
/// is none.
pub open spec fn find_newline(s: Seq<char>, from: int) -> int
    recommends
        0 <= from <= s.len(),
    decreases s.len() - from,
        when 0 <= from <= s.len()
{
    if from >= s.len() {
        s.len() as int
    } else if s[from] == '\n' {
        from
    } else {
        find_newline(s, from + 1)
    }
}

proof fn lemma_find_newline_bounds(s: Seq<char>, from: int)
    requires
        0 <= from <= s.len(),
    ensures
        from <= find_newline(s, from) <= s.len(),
        find_newline(s, from) < s.len() ==> s[find_newline(s, from)] == '\n',
        forall|k: int| from <= k < find_newline(s, from) ==> s[k] != '\n',
    decreases s.len() - from,
{
    if from >= s.len() {
    } else if s[from] == '\n' {
    } else {
        lemma_find_newline_bounds(s, from + 1);
    }
}

/// `find_newline` is pinned down by its characteristic properties: if no
/// `'\n'` occurs before `j`, and `j` is either the end or a `'\n'`, then `j`
/// is the first newline position.
proof fn lemma_find_newline_at(s: Seq<char>, from: int, j: int)
    requires
        0 <= from <= j <= s.len(),
        forall|k: int| from <= k < j ==> s[k] != '\n',
        j == s.len() || s[j] == '\n',
    ensures
        find_newline(s, from) == j,
    decreases j - from,
{
    if from >= s.len() {
    } else if s[from] == '\n' {
        assert(from == j);
    } else {
        assert(from < j);
        lemma_find_newline_at(s, from + 1, j);
    }
}

/// The lines of a character sequence: maximal runs of characters between
/// `'\n'` terminators.  A run that ends in a terminator loses a carriage
/// return directly before it; a trailing terminator yields no extra empty
/// line; a final run without a terminator is kept as it stands.
pub open spec fn line_seqs(s: Seq<char>) -> Seq<Seq<char>>
    decreases s.len(),
        via line_seqs_decreases
{
    if s.len() == 0 {
        Seq::empty()
    } else {
        let j = find_newline(s, 0);
        if j == s.len() {
            seq![s]
        } else {
            seq![strip_trailing_cr(s.subrange(0, j))] + line_seqs(
                s.subrange(j + 1, s.len() as int),
            )
        }
    }
}

#[via_fn]
proof fn line_seqs_decreases(s: Seq<char>) {
    if s.len() > 0 {
        lemma_find_newline_bounds(s, 0);
    }
}

/// `needle` occurs in `hay` starting at character position `i`.
pub open spec fn contains_at(hay: Seq<char>, needle: Seq<char>, i: int) -> bool {
    &&& 0 <= i
    &&& i + needle.len() <= hay.len()
    &&& hay.subrange(i, i + needle.len() as int) == needle
}

/// `needle` occurs somewhere in `hay` as a contiguous run of characters.
pub open spec fn contains_sub(hay: Seq<char>, needle: Seq<char>) -> bool {
    exists|i: int| contains_at(hay, needle, i)
}

/// The lines of `contents` that contain `query`, in their original order.
pub open spec fn matching_lines(query: Seq<char>, contents: Seq<char>) -> Seq<Seq<char>> {
    line_seqs(contents).filter(|l: Seq<char>| contains_sub(l, query))
}

/// The lowercase form of a character sequence, as `str::to_lowercase`
/// computes it.  The full Unicode lowercasing tables are not written out
/// here; the name stands for their effect, which depends on the characters
/// alone.
pub uninterp spec fn lower_of(s: Seq<char>) -> Seq<char>;

/// A line matches a query case-insensitively when the lowercase form of the
/// line contains the lowercase form of the query.
pub open spec fn ci_matches(line: Seq<char>, query: Seq<char>) -> bool {
    contains_sub(lower_of(line), lower_of(query))
}

/// The lines of `contents` whose lowercase form contains the lowercase form
/// of `query`, in their original order and with their original casing.
pub open spec fn ci_matching_lines(query: Seq<char>, contents: Seq<char>) -> Seq<Seq<char>> {
    line_seqs(contents).filter(|l: Seq<char>| ci_matches(l, query))
}

/// Relies on `str::to_lowercase`: the returned string is the lowercase
/// mapping of the input's characters, a pure function of those characters.
#[verifier::external_body]
fn to_lowercase(s: &str) -> (r: String)
    ensures
        r@ == lower_of(s@),
{
    s.to_lowercase()
}

// ---------------------------------------------------------------------------
// Verified substring containment.
// ---------------------------------------------------------------------------

/// Whether `needle` occurs in `hay` as a contiguous substring, compared
/// character by character.
pub fn contains_str(hay: &str, needle: &str) -> (b: bool)
    ensures
        b == contains_sub(hay@, needle@),
{
    let hay_len = hay.unicode_len();
    let needle_len = needle.unicode_len();
    if needle_len == 0 {
        proof {
            assert(hay@.subrange(0, 0) =~= needle@);
            assert(contains_at(hay@, needle@, 0));
        }
        return true;
    }
    if needle_len > hay_len {
        proof {
            assert(forall|i: int| !contains_at(hay@, needle@, i));
        }
        return false;
    }
    let mut i: usize = 0;
    while i <= hay_len - needle_len
        invariant
            hay_len == hay@.len(),
            needle_len == needle@.len(),
            0 < needle_len <= hay_len,
            i <= hay_len - needle_len + 1,
            forall|i2: int| 0 <= i2 < i ==> !contains_at(hay@, needle@, i2),
        decreases hay_len - needle_len + 1 - i,
    {
        let mut k: usize = 0;
        let mut all_eq = true;
        while k < needle_len
            invariant
                hay_len == hay@.len(),
                needle_len == needle@.len(),
                0 < needle_len <= hay_len,
                i + needle_len <= hay_len,
                k <= needle_len,
                all_eq <==> (forall|k2: int| 0 <= k2 < k ==> hay@[i + k2] == needle@[k2]),
            decreases needle_len - k,
        {
            if hay.get_char(i + k) != needle.get_char(k) {
                all_eq = false;
            }
            k += 1;
        }
        if all_eq {
            proof {
                assert(hay@.subrange(i as int, i + needle@.len() as int) =~= needle@);
                assert(contains_at(hay@, needle@, i as int));
            }
            return true;
        }
        proof {
            let k2 = choose|k2: int| 0 <= k2 < needle@.len() && hay@[i + k2] != needle@[k2];
            assert(!contains_at(hay@, needle@, i as int)) by {
                if contains_at(hay@, needle@, i as int) {
                    assert(hay@.subrange(i as int, i + needle@.len() as int)[k2] == hay@[i + k2]);
                }
            }
        }
        i += 1;
    }
    proof {
        assert(forall|i2: int| !contains_at(hay@, needle@, i2)) by {
            assert forall|i2: int| !contains_at(hay@, needle@, i2) by {
                if 0 <= i2 < i {
                } else {
                    assert(!(0 <= i2 && i2 + needle@.len() <= hay@.len()) || i2 >= i);
                }
            }
        }
    }
    false
}

// ---------------------------------------------------------------------------
// Line scanning.
// ---------------------------------------------------------------------------

/// The position of the next `'\n'` at or after `start`, or `n` if there is
/// none.
fn find_line_end(contents: &str, start: usize, n: usize) -> (j: usize)
    requires
        start <= n,
        n == contents@.len(),
    ensures
        start <= j <= n,
        forall|k: int| start <= k < j ==> contents@[k] != '\n',
        j < n ==> contents@[j as int] == '\n',
{
    let mut j = start;
    while j < n
        invariant
            start <= j <= n,
            n == contents@.len(),
            forall|k: int| start <= k < j ==> contents@[k] != '\n',
        decreases n - j,
    {
        if contents.get_char(j) == '\n' {
            return j;
        }
        j += 1;
    }
    j
}

/// Splitting off the first line: if no `'\n'` occurs before `j` and `j` is
/// either a `'\n'` or the end, the lines of `s` are the first run followed by
/// the lines of what comes after the terminator.
proof fn lemma_line_seqs_step(s: Seq<char>, j: int)
    requires
        s.len() > 0,
        0 <= j <= s.len(),
        forall|k: int| 0 <= k < j ==> s[k] != '\n',
        j < s.len() ==> s[j] == '\n',
    ensures
        j == s.len() ==> line_seqs(s) == seq![s],
        j < s.len() ==> line_seqs(s) == seq![strip_trailing_cr(s.subrange(0, j))] + line_seqs(
            s.subrange(j + 1, s.len() as int),
        ),
{
    lemma_find_newline_at(s, 0, j);
}

// ---------------------------------------------------------------------------
// The two search operations.
// ---------------------------------------------------------------------------

/// Exact search: the lines of `contents` that contain `query` as a
/// contiguous substring, in their original order.  The returned slices
/// borrow from `contents` and keep the original text verbatim.
pub fn search<'a>(query: &str, contents: &'a str) -> (result: Vec<&'a str>)
    ensures
        result.deep_view() == matching_lines(query@, contents@),
{
    let ghost pred = |l: Seq<char>| contains_sub(l, query@);
    let n = contents.unicode_len();
    let mut result: Vec<&'a str> = Vec::new();
    let mut start: usize = 0;
    proof {
        assert(contents@.subrange(0, n as int) =~= contents@);
        assert(result.deep_view() =~= Seq::<Seq<char>>::empty());
        assert(Seq::<Seq<char>>::empty() + matching_lines(query@, contents@) =~= matching_lines(
            query@,
            contents@,
        ));
    }
    while start < n
        invariant
            start <= n,
            n == contents@.len(),
            pred == (|l: Seq<char>| contains_sub(l, query@)),
            result.deep_view() + matching_lines(query@, contents@.subrange(start as int, n as int))
                == matching_lines(query@, contents@),
        decreases n - start,
    {
        let j = find_line_end(contents, start, n);
        let line: &'a str = if j < n {
            if j > start && contents.get_char(j - 1) == '\r' {
                contents.substring_char(start, j - 1)
            } else {
                contents.substring_char(start, j)
            }
        } else {
            contents.substring_char(start, n)
        };
        let next: usize = if j < n {
            j + 1
        } else {
            n
        };
        proof {
            let seg = contents@.subrange(start as int, j as int);
            if j < n {
                if j > start && contents@[j - 1] == '\r' {
                    assert(seg.len() > 0 && seg.last() == '\r');
                    assert(seg.drop_last() =~= contents@.subrange(start as int, j - 1));
                } else {
                    if j > start {
                        assert(seg.last() == contents@[j - 1]);
                    }
                }
                assert(line@ == strip_trailing_cr(seg));
            }
            lemma_scan_step(pred, contents@, start as int, j as int, next as int, line@);
        }
        let ghost old_result = result.deep_view();
        let matched = contains_str(line, query);
        if matched {
            result.push(line);
        }
        proof {
            lemma_filter_singleton(line@, pred);
            let mnext = matching_lines(query@, contents@.subrange(next as int, n as int));
            assert(matched == pred(line@));
            if matched {
                assert(result.deep_view() =~= old_result + seq![line@]);
                assert((old_result + seq![line@]) + mnext =~= old_result + (seq![line@] + mnext));
            } else {
                assert(Seq::<Seq<char>>::empty() + mnext =~= mnext);
            }
        }
        start = next;
    }
    proof {
        assert(contents@.subrange(n as int, n as int) =~= Seq::<char>::empty());
        assert(matching_lines(query@, Seq::<char>::empty()) =~= Seq::<Seq<char>>::empty());
        assert(result.deep_view() + Seq::<Seq<char>>::empty() =~= result.deep_view());
    }
    result
}

/// Case-insensitive search: the lines of `contents` whose lowercase form
/// contains the lowercase form of `query`, in their original order.  The
/// returned slices keep the original casing of the content, not of the
/// query.
pub fn search_case_insensitive<'a>(query: &str, contents: &'a str) -> (result: Vec<&'a str>)
    ensures
        result.deep_view() == ci_matching_lines(query@, contents@),
{
    let ghost pred = |l: Seq<char>| ci_matches(l, query@);
    let query_lower = to_lowercase(query);
    let n = contents.unicode_len();
    let mut result: Vec<&'a str> = Vec::new();
    let mut start: usize = 0;
    proof {
        assert(contents@.subrange(0, n as int) =~= contents@);
        assert(result.deep_view() =~= Seq::<Seq<char>>::empty());
        assert(Seq::<Seq<char>>::empty() + ci_matching_lines(query@, contents@)
            =~= ci_matching_lines(query@, contents@));
    }
    while start < n
        invariant
            start <= n,
            n == contents@.len(),
            pred == (|l: Seq<char>| ci_matches(l, query@)),
            query_lower@ == lower_of(query@),
            result.deep_view() + ci_matching_lines(
                query@,
                contents@.subrange(start as int, n as int),
            ) == ci_matching_lines(query@, contents@),
        decreases n - start,
    {
        let j = find_line_end(contents, start, n);
        let line: &'a str = if j < n {
            if j > start && contents.get_char(j - 1) == '\r' {
                contents.substring_char(start, j - 1)
            } else {
                contents.substring_char(start, j)
            }
        } else {
            contents.substring_char(start, n)
        };
        let next: usize = if j < n {
            j + 1
        } else {
            n
        };
        proof {
            let seg = contents@.subrange(start as int, j as int);
            if j < n {
                if j > start && contents@[j - 1] == '\r' {
                    assert(seg.len() > 0 && seg.last() == '\r');
                    assert(seg.drop_last() =~= contents@.subrange(start as int, j - 1));
                } else {
                    if j > start {
                        assert(seg.last() == contents@[j - 1]);
                    }
                }
                assert(line@ == strip_trailing_cr(seg));
            }
            lemma_scan_step(pred, contents@, start as int, j as int, next as int, line@);
        }
        let ghost old_result = result.deep_view();
        let line_lower = to_lowercase(line);
        let matched = contains_str(line_lower.as_str(), query_lower.as_str());
        if matched {
            result.push(line);
        }
        proof {
            lemma_filter_singleton(line@, pred);
            let mnext = ci_matching_lines(query@, contents@.subrange(next as int, n as int));
            assert(matched == pred(line@));
            if matched {
                assert(result.deep_view() =~= old_result + seq![line@]);
                assert((old_result + seq![line@]) + mnext =~= old_result + (seq![line@] + mnext));
            } else {
                assert(Seq::<Seq<char>>::empty() + mnext =~= mnext);
            }
        }
        start = next;
    }
    proof {
        assert(contents@.subrange(n as int, n as int) =~= Seq::<char>::empty());
        assert(ci_matching_lines(query@, Seq::<char>::empty()) =~= Seq::<Seq<char>>::empty());
        assert(result.deep_view() + Seq::<Seq<char>>::empty() =~= result.deep_view());
    }
    result
}

/// The heart of the search loop invariants: consuming one line moves its
/// (possible) contribution from the unscanned suffix to the accumulated
/// matches, whatever the match predicate is.
proof fn lemma_scan_step(
    pred: spec_fn(Seq<char>) -> bool,
    contents: Seq<char>,
    start: int,
    j: int,
    next: int,
    line: Seq<char>,
)
    requires
        0 <= start <= j <= contents.len(),
        start < contents.len(),
        forall|k: int| start <= k < j ==> contents[k] != '\n',
        j < contents.len() ==> contents[j] == '\n',
        next == if j < contents.len() {
            j + 1
        } else {
            contents.len() as int
        },
        line == if j < contents.len() {
            strip_trailing_cr(contents.subrange(start, j))
        } else {
            contents.subrange(start, contents.len() as int)
        },
    ensures
        line_seqs(contents.subrange(start, contents.len() as int)).filter(pred) == seq![
            line,
        ].filter(pred) + line_seqs(contents.subrange(next, contents.len() as int)).filter(pred),
{
    let len = contents.len() as int;
    let sub = contents.subrange(start, len);
    assert(sub.len() > 0);
    assert(forall|k: int| 0 <= k < j - start ==> sub[k] != '\n');
    if j < len {
        assert(sub[j - start] == '\n');
        lemma_line_seqs_step(sub, j - start);
        assert(sub.subrange(0, j - start) =~= contents.subrange(start, j));
        assert(sub.subrange(j - start + 1, sub.len() as int) =~= contents.subrange(next, len));
        assert(line_seqs(sub) == seq![line] + line_seqs(contents.subrange(next, len)));
        Seq::filter_distributes_over_add(
            seq![line],
            line_seqs(contents.subrange(next, len)),
            pred,
        );
    } else {
        lemma_line_seqs_step(sub, sub.len() as int);
        assert(line == sub);
        assert(line_seqs(sub) == seq![line]);
        assert(contents.subrange(next, len) =~= Seq::<char>::empty());
        assert(line_seqs(Seq::<char>::empty()) =~= Seq::<Seq<char>>::empty());
        assert(Seq::<Seq<char>>::empty().filter(pred) =~= Seq::<Seq<char>>::empty()) by {
            reveal(Seq::filter);
        }
        assert(seq![line].filter(pred) + Seq::<Seq<char>>::empty() =~= seq![line].filter(pred));
    }
}

// ---------------------------------------------------------------------------
// Laws of the two searches.
// ---------------------------------------------------------------------------

/// Filtering a sequence keeps a subsequence of it: there is a strictly
/// increasing map `idx` from positions of the filtered sequence to
/// positions of the original, every element the map reaches satisfies the
/// predicate, and every position of the original whose element satisfies
/// the predicate is reached.
pub proof fn filter_index_map<A>(s: Seq<A>, pred: spec_fn(A) -> bool) -> (idx: Seq<int>)
    ensures
        idx.len() == s.filter(pred).len(),
        forall|k: int| 0 <= k < idx.len() ==> 0 <= #[trigger] idx[k] < s.len(),
        forall|k: int| 0 <= k < idx.len() ==> s[#[trigger] idx[k]] == s.filter(pred)[k],
        forall|k1: int, k2: int| 0 <= k1 < k2 < idx.len() ==> idx[k1] < idx[k2],
        forall|i: int| 0 <= i < s.len() && pred(s[i]) ==> idx.contains(i),
    decreases s.len(),
{
    reveal(Seq::filter);
    if s.len() == 0 {
        Seq::<int>::empty()
    } else {
        let prefix = s.drop_last();
        let sub = filter_index_map(prefix, pred);
        assert(forall|k: int| 0 <= k < sub.len() ==> prefix[#[trigger] sub[k]] == s[sub[k]]);
        if pred(s.last()) {
            let idx = sub.push(s.len() - 1);
            assert(s.filter(pred) == prefix.filter(pred).push(s.last()));
            assert(forall|k: int| 0 <= k < sub.len() ==> #[trigger] idx[k] == sub[k]);
            assert(s[idx[idx.len() - 1]] == s.filter(pred)[idx.len() - 1]);
            assert forall|i: int| 0 <= i < s.len() && pred(s[i]) implies idx.contains(i) by {
                if i < s.len() - 1 {
                    assert(prefix[i] == s[i]);
                    assert(sub.contains(i));
                    let k = choose|k: int| 0 <= k < sub.len() && sub[k] == i;
                    assert(idx[k] == i);
                } else {
                    assert(idx[idx.len() - 1] == i);
                }
            }
            idx
        } else {
            assert(s.filter(pred) == prefix.filter(pred));
            assert forall|i: int| 0 <= i < s.len() && pred(s[i]) implies sub.contains(i) by {
                assert(i < s.len() - 1);
                assert(prefix[i] == s[i]);
            }
            sub
        }
    }
}

/// Exact search returns a subsequence of the lines of the content, in their
/// original order: a strictly increasing index map carries the result onto
/// lines of the content, every returned line contains the query, and every
/// line that contains the query is returned.
pub proof fn lemma_search_characterization(query: Seq<char>, contents: Seq<char>) -> (idx: Seq<
    int,
>)
    ensures
        idx.len() == matching_lines(query, contents).len(),
        forall|k: int|
            0 <= k < idx.len() ==> 0 <= #[trigger] idx[k] < line_seqs(contents).len(),
        forall|k: int|
            0 <= k < idx.len() ==> line_seqs(contents)[#[trigger] idx[k]] == matching_lines(
                query,
                contents,
            )[k],
        forall|k1: int, k2: int| 0 <= k1 < k2 < idx.len() ==> idx[k1] < idx[k2],
        forall|k: int|
            0 <= k < idx.len() ==> contains_sub(
                #[trigger] matching_lines(query, contents)[k],
                query,
            ),
        forall|i: int|
            0 <= i < line_seqs(contents).len() && contains_sub(
                #[trigger] line_seqs(contents)[i],
                query,
            ) ==> idx.contains(i),
{
    let pred = |l: Seq<char>| contains_sub(l, query);
    let idx = filter_index_map(line_seqs(contents), pred);
    assert forall|k: int| 0 <= k < idx.len() implies contains_sub(
        #[trigger] matching_lines(query, contents)[k],
        query,
    ) by {
        assert(matching_lines(query, contents)[k] == line_seqs(contents)[idx[k]]);
    }
    idx
}

/// Case-insensitive search returns exactly the lines of the content whose
/// lowercase form contains the lowercase form of the query, in their
/// original order and with their original casing: the index map carries
/// each returned entry onto the untouched original line.
pub proof fn lemma_search_ci_characterization(query: Seq<char>, contents: Seq<char>) -> (idx: Seq<
    int,
>)
    ensures
        idx.len() == ci_matching_lines(query, contents).len(),
        forall|k: int|
            0 <= k < idx.len() ==> 0 <= #[trigger] idx[k] < line_seqs(contents).len(),
        forall|k: int|
            0 <= k < idx.len() ==> line_seqs(contents)[#[trigger] idx[k]] == ci_matching_lines(
                query,
                contents,
            )[k],
        forall|k1: int, k2: int| 0 <= k1 < k2 < idx.len() ==> idx[k1] < idx[k2],
        forall|k: int|
            0 <= k < idx.len() ==> ci_matches(#[trigger] ci_matching_lines(query, contents)[k], query),
        forall|i: int|
            0 <= i < line_seqs(contents).len() && ci_matches(
                #[trigger] line_seqs(contents)[i],
                query,
            ) ==> idx.contains(i),
{
    let pred = |l: Seq<char>| ci_matches(l, query);
    let idx = filter_index_map(line_seqs(contents), pred);
    assert forall|k: int| 0 <= k < idx.len() implies ci_matches(
        #[trigger] ci_matching_lines(query, contents)[k],
        query,
    ) by {
        assert(ci_matching_lines(query, contents)[k] == line_seqs(contents)[idx[k]]);
    }
    idx
}

/// The empty query matches every line: searching for it returns all lines
/// of the content, unchanged and in order.
pub proof fn lemma_empty_query_matches_all(contents: Seq<char>)
    ensures
        matching_lines(Seq::<char>::empty(), contents) == line_seqs(contents),
{
    let pred = |l: Seq<char>| contains_sub(l, Seq::<char>::empty());
    assert forall|i: int| 0 <= i < line_seqs(contents).len() implies pred(
        #[trigger] line_seqs(contents)[i],
    ) by {
        let l = line_seqs(contents)[i];
        assert(l.subrange(0, 0) =~= Seq::<char>::empty());
        assert(contains_at(l, Seq::<char>::empty(), 0));
    }
    lemma_filter_all_true(line_seqs(contents), pred);
}

/// Empty content yields an empty result, for any query and in either mode.
pub proof fn lemma_empty_content_no_matches(query: Seq<char>)
    ensures
        matching_lines(query, Seq::<char>::empty()) == Seq::<Seq<char>>::empty(),
        ci_matching_lines(query, Seq::<char>::empty()) == Seq::<Seq<char>>::empty(),
{
    reveal(Seq::filter);
    assert(line_seqs(Seq::<char>::empty()) =~= Seq::<Seq<char>>::empty());
}

} // verus!
