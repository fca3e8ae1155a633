//! Line search: the lines of a text that contain a query, with an optional
//! case-insensitive variant.

use vstd::prelude::*;
use crate::text::{first_index_of, lemma_first_index_of};

verus! {

/// `needle` occurs contiguously somewhere in `hay`.
pub open spec fn is_substring_of(needle: Seq<char>, hay: Seq<char>) -> bool {
    exists|i: int|
        0 <= i && i + needle.len() <= hay.len() && #[trigger] hay.subrange(i, i + needle.len())
            == needle
}

/// A line with its trailing carriage return, if any, removed.
pub open spec fn strip_cr(l: Seq<char>) -> Seq<char> {
    if l.len() > 0 && l.last() == '\r' {
        l.drop_last()
    } else {
        l
    }
}

/// The lines of `s`: the pieces between newlines, with no empty final line
/// after a trailing newline. A carriage return is removed only as part of a
/// carriage-return-newline ending; a final piece with no newline ending keeps
/// its characters as they are.
pub open spec fn lines_spec(s: Seq<char>) -> Seq<Seq<char>>
    decreases s.len(),
    via lines_spec_decreases
{
    if s.len() == 0 {
        Seq::empty()
    } else if first_index_of(s, '\n') == -1 {
        seq![s]
    } else {
        seq![strip_cr(s.subrange(0, first_index_of(s, '\n')))] + lines_spec(
            s.skip(first_index_of(s, '\n') + 1),
        )
    }
}

#[via_fn]
proof fn lines_spec_decreases(s: Seq<char>) {
    lemma_first_index_of(s, '\n');
}

/// The lines among `lines` that contain `q`, in order.
pub open spec fn matching_lines(lines: Seq<Seq<char>>, q: Seq<char>) -> Seq<Seq<char>>
    decreases lines.len(),
{
    if lines.len() == 0 {
        Seq::empty()
    } else if is_substring_of(q, lines.last()) {
        matching_lines(lines.drop_last(), q).push(lines.last())
    } else {
        matching_lines(lines.drop_last(), q)
    }
}

/// The lines among `lines` that contain `q` once both are folded to lower
/// case, in order.
pub open spec fn matching_lines_ci(lines: Seq<Seq<char>>, q: Seq<char>) -> Seq<Seq<char>>
    decreases lines.len(),
{
    if lines.len() == 0 {
        Seq::empty()
    } else if is_substring_of(lower_of(q), lower_of(lines.last())) {
        matching_lines_ci(lines.drop_last(), q).push(lines.last())
    } else {
        matching_lines_ci(lines.drop_last(), q)
    }
}

/// What `str::to_lowercase` returns for a given character sequence.
pub uninterp spec fn lower_of(s: Seq<char>) -> Seq<char>;

/// Relies on str::to_lowercase: the result depends on the characters alone.
#[verifier::external_body]
fn lowercase(s: &str) -> (r: String)
    ensures
        r@ == lower_of(s@),
{
    s.to_lowercase()
}

/// Relies on str::contains: true exactly when the needle occurs as a
/// contiguous substring of the haystack.
#[verifier::external_body]
fn contains_sub(hay: &str, needle: &str) -> (r: bool)
    ensures
        r == is_substring_of(needle@, hay@),
{
    hay.contains(needle)
}

/// Relies on str::lines: splits at newline or carriage-return-newline
/// endings, and yields no empty final line after a trailing line ending.
#[verifier::external_body]
fn split_lines<'a>(s: &'a str) -> (r: Vec<&'a str>)
    ensures
        r@.map_values(|l: &str| l@) == lines_spec(s@),
{
    s.lines().collect()
}

proof fn lemma_matching_push(lines: Seq<Seq<char>>, q: Seq<char>, x: Seq<char>)
    ensures
        matching_lines(lines.push(x), q) == if is_substring_of(q, x) {
            matching_lines(lines, q).push(x)
        } else {
            matching_lines(lines, q)
        },
{
    assert(lines.push(x).drop_last() =~= lines);
}

proof fn lemma_matching_ci_push(lines: Seq<Seq<char>>, q: Seq<char>, x: Seq<char>)
    ensures
        matching_lines_ci(lines.push(x), q) == if is_substring_of(lower_of(q), lower_of(x)) {
            matching_lines_ci(lines, q).push(x)
        } else {
            matching_lines_ci(lines, q)
        },
{
    assert(lines.push(x).drop_last() =~= lines);
}

/// The lines of `contents` that contain `query`, in order of appearance.
pub fn search<'a>(query: &str, contents: &'a str) -> (results: Vec<&'a str>)
    ensures
        results@.map_values(|l: &str| l@) == matching_lines(lines_spec(contents@), query@),
{
    let lines = split_lines(contents);
    let ghost all = lines@.map_values(|l: &str| l@);
    let mut results: Vec<&'a str> = Vec::new();
    let mut i: usize = 0;
    while i < lines.len()
        invariant
            i <= lines@.len(),
            all == lines@.map_values(|l: &str| l@),
            results@.map_values(|l: &str| l@) == matching_lines(all.take(i as int), query@),
        decreases lines@.len() - i,
    {
        let ghost prev = results@.map_values(|l: &str| l@);
        let line = lines[i];
        if contains_sub(line, query) {
            results.push(line);
        }
        proof {
            assert(all.take(i + 1) =~= all.take(i as int).push(line@));
            lemma_matching_push(all.take(i as int), query@, line@);
            if is_substring_of(query@, line@) {
                assert(results@.map_values(|l: &str| l@) =~= prev.push(line@));
            }
        }
        i = i + 1;
    }
    proof {
        assert(all.take(lines@.len() as int) =~= all);
    }
    results
}

/// The lines of `contents` that contain `query` when compared in lower case,
/// in order of appearance.
pub fn search_case_insensitive<'a>(query: &str, contents: &'a str) -> (results: Vec<&'a str>)
    ensures
        results@.map_values(|l: &str| l@) == matching_lines_ci(lines_spec(contents@), query@),
{
    let lines = split_lines(contents);
    let lowered_query = lowercase(query);
    let ghost all = lines@.map_values(|l: &str| l@);
    let mut results: Vec<&'a str> = Vec::new();
    let mut i: usize = 0;
    while i < lines.len()
        invariant
            i <= lines@.len(),
            all == lines@.map_values(|l: &str| l@),
            lowered_query@ == lower_of(query@),
            results@.map_values(|l: &str| l@) == matching_lines_ci(all.take(i as int), query@),
        decreases lines@.len() - i,
    {
        let ghost prev = results@.map_values(|l: &str| l@);
        let line = lines[i];
        let lowered_line = lowercase(line);
        if contains_sub(lowered_line.as_str(), lowered_query.as_str()) {
            results.push(line);
        }
        proof {
            assert(all.take(i + 1) =~= all.take(i as int).push(line@));
            lemma_matching_ci_push(all.take(i as int), query@, line@);
            if is_substring_of(lower_of(query@), lower_of(line@)) {
                assert(results@.map_values(|l: &str| l@) =~= prev.push(line@));
            }
        }
        i = i + 1;
    }
    proof {
        assert(all.take(lines@.len() as int) =~= all);
    }
    results
}

/// The longer of two words, measured by encoded byte length, the second on a
/// tie.
pub fn longest_word<'b>(x: &'b str, y: &'b str) -> (r: &'b str)
    ensures
        r@ == if x.len() > y.len() {
            x@
        } else {
            y@
        },
{
    if x.len() > y.len() {
        x
    } else {
        y
    }
}

/// The search configuration: what to look for, where, and how to compare.
pub struct Config {
    pub query: String,
    pub file_path: String,
    pub ignore_case: bool,
}

impl Config {
    /// Builds a configuration from the command-line arguments; the caller
    /// supplies the case-folding choice it read from its environment. Fewer
    /// than three arguments are not enough.
    pub fn new(args: &Vec<String>, ignore_case: bool) -> (r: Result<Config, &'static str>)
        ensures
            args@.len() < 3 ==> (r matches Err(m) && m@ == "Not enough arguments"@),
            args@.len() >= 3 ==> (r matches Ok(c) && c.query@ == args@[1]@ && c.file_path@
                == args@[2]@ && c.ignore_case == ignore_case),
    {
        if args.len() < 3 {
            return Err("Not enough arguments");
        }
        let query = args[1].clone();
        let file_path = args[2].clone();
        Ok(Config { query, file_path, ignore_case })
    }
}

} // verus!
