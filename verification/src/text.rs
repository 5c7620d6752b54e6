//! Verified text utilities: substring search, splitting into lines, and a
//! trusted case-folding step.
//!
//! Strings are specified through their character sequences. Splitting
//! follows the usual line convention: a line ends at a line feed, an
//! immediately preceding carriage return belongs to the terminator, and a
//! final unterminated segment is a line of its own.

use vstd::prelude::*;

verus! {

/// `q` occurs in `s` starting at position `i`.
pub open spec fn occurs_at(s: Seq<char>, q: Seq<char>, i: int) -> bool {
    &&& 0 <= i
    &&& i + q.len() <= s.len()
    &&& s.subrange(i, i + q.len()) == q
}

/// `q` occurs somewhere in `s`.
pub open spec fn spec_contains(s: Seq<char>, q: Seq<char>) -> bool {
    exists|i: int| occurs_at(s, q, i)
}

/// Whether `q` occurs in `s` at position `i`.
fn match_at(s: &str, q: &str, i: usize) -> (r: bool)
    requires
        i + q@.len() <= s@.len(),
    ensures
        r == occurs_at(s@, q@, i as int),
{
    let n = s.unicode_len();
    let m = q.unicode_len();
    let mut j: usize = 0;
    while j < m
        invariant
            n == s@.len(),
            m == q@.len(),
            i + m <= n,
            j <= m,
            forall|t: int| 0 <= t < j ==> s@[i + t] == q@[t],
        decreases m - j,
    {
        if s.get_char(i + j) != q.get_char(j) {
            proof {
                assert(s@.subrange(i as int, i + q@.len())[j as int] == s@[i + j]);
            }
            return false;
        }
        j += 1;
    }
    proof {
        assert(s@.subrange(i as int, i + q@.len()) =~= q@);
    }
    true
}

/// Whether `q` occurs anywhere in `s` (the empty string occurs in every
/// string).
pub fn str_contains(s: &str, q: &str) -> (r: bool)
    ensures
        r == spec_contains(s@, q@),
{
    let n = s.unicode_len();
    let m = q.unicode_len();
    if m > n {
        proof {
            assert forall|i: int| !occurs_at(s@, q@, i) by {}
        }
        return false;
    }
    let mut i: usize = 0;
    while i < n - m
        invariant
            n == s@.len(),
            m == q@.len(),
            m <= n,
            i <= n - m,
            forall|t: int| 0 <= t < i ==> !occurs_at(s@, q@, t),
        decreases n - m - i,
    {
        if match_at(s, q, i) {
            return true;
        }
        i += 1;
    }
    if match_at(s, q, i) {
        return true;
    }
    proof {
        assert forall|t: int| !occurs_at(s@, q@, t) by {
            if 0 <= t <= n - m {
                assert(!occurs_at(s@, q@, t));
            }
        }
    }
    false
}

/// `suffix` is a suffix of `s`.
pub open spec fn spec_ends_with(s: Seq<char>, suffix: Seq<char>) -> bool {
    &&& s.len() >= suffix.len()
    &&& s.subrange(s.len() - suffix.len(), s.len() as int) == suffix
}

/// Whether `s` ends with `suffix`.
pub fn str_ends_with(s: &str, suffix: &str) -> (r: bool)
    ensures
        r == spec_ends_with(s@, suffix@),
{
    let n = s.unicode_len();
    let m = suffix.unicode_len();
    if m > n {
        return false;
    }
    let r = match_at(s, suffix, n - m);
    proof {
        assert(s@.subrange(n - m, n as int) == s@.subrange(n - m, n - m + suffix@.len()));
    }
    r
}

/// The two strings consist of the same characters.
pub fn str_eq(a: &str, b: &str) -> (r: bool)
    ensures
        r == (a@ == b@),
{
    let n = a.unicode_len();
    if n != b.unicode_len() {
        return false;
    }
    let mut j: usize = 0;
    while j < n
        invariant
            n == a@.len(),
            n == b@.len(),
            j <= n,
            forall|t: int| 0 <= t < j ==> a@[t] == b@[t],
        decreases n - j,
    {
        if a.get_char(j) != b.get_char(j) {
            return false;
        }
        j += 1;
    }
    proof {
        assert(a@ =~= b@);
    }
    true
}

/// The position of the first line feed in `s`, or `s.len()` if there is
/// none.
pub open spec fn first_nl(s: Seq<char>) -> int
    decreases s.len(),
{
    if s.len() == 0 {
        0
    } else if s[0] == '\n' {
        0
    } else {
        1 + first_nl(s.drop_first())
    }
}

proof fn lemma_first_nl_bounds(s: Seq<char>)
    ensures
        0 <= first_nl(s) <= s.len(),
        first_nl(s) < s.len() ==> s[first_nl(s)] == '\n',
        forall|j: int| 0 <= j < first_nl(s) ==> s[j] != '\n',
    decreases s.len(),
{
    if s.len() > 0 && s[0] != '\n' {
        lemma_first_nl_bounds(s.drop_first());
        assert forall|j: int| 0 <= j < first_nl(s) implies s[j] != '\n' by {
            if j > 0 {
                assert(s.drop_first()[j - 1] == s[j]);
            }
        }
    }
}

proof fn lemma_first_nl_is(s: Seq<char>, i: int)
    requires
        0 <= i <= s.len(),
        forall|j: int| 0 <= j < i ==> s[j] != '\n',
        i < s.len() ==> s[i] == '\n',
    ensures
        first_nl(s) == i,
    decreases s.len(),
{
    if s.len() > 0 && s[0] != '\n' {
        assert forall|j: int| 0 <= j < i - 1 implies s.drop_first()[j] != '\n' by {
            assert(s.drop_first()[j] == s[j + 1]);
        }
        if i - 1 < s.drop_first().len() {
            assert(s.drop_first()[i - 1] == s[i]);
        }
        lemma_first_nl_is(s.drop_first(), i - 1);
    }
}

/// A terminated chunk with one trailing carriage return stripped.
pub open spec fn line_chunk(s: Seq<char>) -> Seq<char> {
    if s.len() > 0 && s.last() == '\r' {
        s.drop_last()
    } else {
        s
    }
}

/// The lines of `s`: split at every line feed, strip a carriage return
/// directly before the line feed, and keep a final unterminated segment
/// if it is nonempty.
pub open spec fn spec_lines(s: Seq<char>) -> Seq<Seq<char>>
    decreases s.len(),
    via spec_lines_decreases
{
    if s.len() == 0 {
        Seq::empty()
    } else {
        let i = first_nl(s);
        if i == s.len() {
            seq![s]
        } else {
            seq![line_chunk(s.subrange(0, i))] + spec_lines(s.subrange(i + 1, s.len() as int))
        }
    }
}

#[via_fn]
proof fn spec_lines_decreases(s: Seq<char>) {
    lemma_first_nl_bounds(s);
}

/// Split `contents` into its lines, as slices of the input.
pub fn lines<'a>(contents: &'a str) -> (r: Vec<&'a str>)
    ensures
        r@.map_values(|l: &str| l@) == spec_lines(contents@),
{
    let ghost s = contents@;
    let n = contents.unicode_len();
    let mut r: Vec<&'a str> = Vec::new();
    let mut start: usize = 0;
    let mut pos: usize = 0;
    proof {
        assert(s.subrange(0, n as int) =~= s);
        assert(r@.map_values(|l: &str| l@) =~= Seq::<Seq<char>>::empty());
        assert(Seq::<Seq<char>>::empty() + spec_lines(s) =~= spec_lines(s));
    }
    while pos < n
        invariant
            n == s.len(),
            s == contents@,
            start <= pos <= n,
            forall|j: int| start <= j < pos ==> s[j] != '\n',
            r@.map_values(|l: &str| l@) + spec_lines(s.subrange(start as int, n as int))
                == spec_lines(s),
        decreases n - pos,
    {
        let c = contents.get_char(pos);
        if c == '\n' {
            let line_end = if pos > start && contents.get_char(pos - 1) == '\r' {
                pos - 1
            } else {
                pos
            };
            let line = contents.substring_char(start, line_end);
            proof {
                let sub = s.subrange(start as int, n as int);
                assert forall|j: int| 0 <= j < pos - start implies sub[j] != '\n' by {
                    assert(sub[j] == s[start + j]);
                }
                assert(sub[pos - start] == s[pos as int]);
                lemma_first_nl_is(sub, pos - start);
                assert(sub.subrange(0, pos - start) =~= s.subrange(start as int, pos as int));
                assert(sub.subrange(pos - start + 1, sub.len() as int) =~= s.subrange(
                    pos + 1,
                    n as int,
                ));
                if pos > start && s[pos - 1] == '\r' {
                    assert(line@ =~= line_chunk(s.subrange(start as int, pos as int)));
                } else {
                    assert(line@ =~= line_chunk(s.subrange(start as int, pos as int)));
                }
                assert((r@.push(line)).map_values(|l: &str| l@) =~= r@.map_values(|l: &str| l@)
                    .push(line@));
                assert(r@.map_values(|l: &str| l@).push(line@) + spec_lines(
                    s.subrange(pos + 1, n as int),
                ) =~= r@.map_values(|l: &str| l@) + spec_lines(sub));
            }
            r.push(line);
            start = pos + 1;
        }
        pos += 1;
    }
    if start < n {
        let line = contents.substring_char(start, n);
        proof {
            let sub = s.subrange(start as int, n as int);
            assert forall|j: int| 0 <= j < sub.len() implies sub[j] != '\n' by {
                assert(sub[j] == s[start + j]);
            }
            lemma_first_nl_is(sub, sub.len() as int);
            assert(line@ == sub);
            assert((r@.push(line)).map_values(|l: &str| l@) =~= r@.map_values(|l: &str| l@).push(
                line@,
            ));
            assert(r@.map_values(|l: &str| l@).push(line@) =~= r@.map_values(|l: &str| l@) + seq![
                sub,
            ]);
        }
        r.push(line);
    } else {
        proof {
            let sub = s.subrange(start as int, n as int);
            assert(sub.len() == 0);
            assert(r@.map_values(|l: &str| l@) + spec_lines(sub) =~= r@.map_values(
                |l: &str| l@,
            ));
        }
    }
    r
}

/// The case folding performed by the standard library: the folded form of
/// a character sequence, as a function of that sequence alone.
pub uninterp spec fn lower_of(s: Seq<char>) -> Seq<char>;

/// Relies on str::to_lowercase: the lowercase equivalent of the string,
/// determined by its characters alone; an empty string stays empty.
#[verifier::external_body]
pub(crate) fn to_lowercase_str(s: &str) -> (r: String)
    ensures
        r@ == lower_of(s@),
        s@.len() == 0 ==> r@.len() == 0,
{
    s.to_lowercase()
}

} // verus!
