//! Searching text for a query, case-sensitive or case-insensitive, and the
//! configuration such a search runs under.
//!
//! The surrounding program reads the file, the command line and the
//! environment; everything here works on the values it hands over.

use vstd::prelude::*;

verus! {

use crate::text::{
    lines,
    lower_of,
    spec_contains,
    spec_lines,
    str_contains,
    str_eq,
    to_lowercase_str,
};

/// The lines of `s` that contain `q`, in order.
pub open spec fn matching_lines(s: Seq<char>, q: Seq<char>) -> Seq<Seq<char>> {
    spec_lines(s).filter(|l: Seq<char>| spec_contains(l, q))
}

/// The first `i` lines of `s` that contain `q`, in order.
pub open spec fn matching_lines_take(s: Seq<char>, q: Seq<char>, i: int) -> Seq<Seq<char>> {
    spec_lines(s).take(i).filter(|l: Seq<char>| spec_contains(l, q))
}

/// The lines of `s` whose folded form contains the folded form of `q`, in
/// order.
pub open spec fn matching_lines_fold(s: Seq<char>, q: Seq<char>) -> Seq<Seq<char>> {
    spec_lines(s).filter(|l: Seq<char>| spec_contains(lower_of(l), lower_of(q)))
}

/// The first `i` lines of `s` whose folded form contains the folded form
/// of `q`.
pub open spec fn matching_lines_fold_take(s: Seq<char>, q: Seq<char>, i: int) -> Seq<Seq<char>> {
    spec_lines(s).take(i).filter(|l: Seq<char>| spec_contains(lower_of(l), lower_of(q)))
}

/// All lines of `contents` that contain `query`, in order, as slices of
/// `contents`. The search is case-sensitive.
pub fn search<'a>(query: &str, contents: &'a str) -> (r: Vec<&'a str>)
    ensures
        r@.map_values(|l: &str| l@) == matching_lines(contents@, query@),
{
    let ls = lines(contents);
    let ghost all = spec_lines(contents@);
    let mut r: Vec<&'a str> = Vec::new();
    let mut i: usize = 0;
    proof {
        reveal(Seq::filter);
        assert(all.take(0) =~= Seq::<Seq<char>>::empty());
        assert(r@.map_values(|l: &str| l@) =~= matching_lines_take(contents@, query@, 0));
    }
    while i < ls.len()
        invariant
            ls@.map_values(|l: &str| l@) == all,
            all == spec_lines(contents@),
            i <= ls@.len(),
            r@.map_values(|l: &str| l@) == matching_lines_take(contents@, query@, i as int),
        decreases ls@.len() - i,
    {
        let line = ls[i];
        let keep = str_contains(line, query);
        proof {
            reveal(Seq::filter);
            assert(all.take(i + 1).drop_last() =~= all.take(i as int));
            assert(ls@.map_values(|l: &str| l@)[i as int] == line@);
            assert(all.take(i + 1).last() == line@);
            if keep {
                assert((r@.push(line)).map_values(|l: &str| l@) =~= r@.map_values(|l: &str| l@)
                    .push(line@));
            }
        }
        if keep {
            r.push(line);
        }
        i += 1;
    }
    proof {
        assert(all.take(ls@.len() as int) =~= all);
    }
    r
}

/// All lines of `contents` that contain `query` up to case folding, in
/// order, as slices of `contents`.
pub fn search_case_insensitive<'a>(query: &str, contents: &'a str) -> (r: Vec<&'a str>)
    ensures
        r@.map_values(|l: &str| l@) == matching_lines_fold(contents@, query@),
{
    let query_lowercase = to_lowercase_str(query);
    let ls = lines(contents);
    let ghost all = spec_lines(contents@);
    let mut r: Vec<&'a str> = Vec::new();
    let mut i: usize = 0;
    proof {
        reveal(Seq::filter);
        assert(all.take(0) =~= Seq::<Seq<char>>::empty());
        assert(r@.map_values(|l: &str| l@) =~= matching_lines_fold_take(contents@, query@, 0));
    }
    while i < ls.len()
        invariant
            ls@.map_values(|l: &str| l@) == all,
            all == spec_lines(contents@),
            query_lowercase@ == lower_of(query@),
            i <= ls@.len(),
            r@.map_values(|l: &str| l@) == matching_lines_fold_take(contents@, query@, i as int),
        decreases ls@.len() - i,
    {
        let line = ls[i];
        let line_lowercase = to_lowercase_str(line);
        let keep = str_contains(line_lowercase.as_str(), query_lowercase.as_str());
        proof {
            reveal(Seq::filter);
            assert(all.take(i + 1).drop_last() =~= all.take(i as int));
            assert(ls@.map_values(|l: &str| l@)[i as int] == line@);
            assert(all.take(i + 1).last() == line@);
            if keep {
                assert((r@.push(line)).map_values(|l: &str| l@) =~= r@.map_values(|l: &str| l@)
                    .push(line@));
            }
        }
        if keep {
            r.push(line);
        }
        i += 1;
    }
    proof {
        assert(all.take(ls@.len() as int) =~= all);
    }
    r
}

/// The folded string is one of the values accepted as "on".
pub open spec fn spec_is_truthy(folded: Seq<char>) -> bool {
    ||| folded == "1"@
    ||| folded == "true"@
    ||| folded == "yes"@
    ||| folded == "on"@
    ||| folded == "enable"@
    ||| folded == "enabled"@
}

/// Whether `val` names a truthy setting: its folded form is one of
/// `1`, `true`, `yes`, `on`, `enable`, `enabled`.
pub fn is_truthy_value(val: &str) -> (r: bool)
    ensures
        r == spec_is_truthy(lower_of(val@)),
{
    let folded = to_lowercase_str(val);
    let f = folded.as_str();
    str_eq(f, "1") || str_eq(f, "true") || str_eq(f, "yes") || str_eq(f, "on") || str_eq(
        f,
        "enable",
    ) || str_eq(f, "enabled")
}

/// What a search runs under: the query, the file to search, and whether
/// case is ignored.
#[derive(Debug)]
pub struct Config {
    pub query: String,
    pub file_path: String,
    pub ignore_case: bool,
}

impl Config {
    /// Assemble a `Config` from the first two command-line arguments and
    /// the case flag, each already read by the caller. Fails exactly when
    /// one of the two arguments is missing, naming the first one missing.
    pub fn new(query: Option<String>, file_path: Option<String>, ignore_case: bool) -> (r: Result<
        Config,
        &'static str,
    >)
        ensures
            match r {
                Ok(c) => {
                    &&& query matches Some(q) && c.query == q
                    &&& file_path matches Some(f) && c.file_path == f
                    &&& c.ignore_case == ignore_case
                },
                Err(e) => {
                    ||| query is None && e@ == "Didn't get a query string"@
                    ||| query is Some && file_path is None && e@ == "Didn't get a file path"@
                },
            },
    {
        let query = match query {
            Some(q) => q,
            None => {
                return Err("Didn't get a query string");
            },
        };
        let file_path = match file_path {
            Some(f) => f,
            None => {
                return Err("Didn't get a file path");
            },
        };
        Ok(Config { query, file_path, ignore_case })
    }
}

} // verus!
