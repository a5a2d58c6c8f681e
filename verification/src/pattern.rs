//! Regular expressions, as far as the line classifier needs them.
//!
//! Matching is done by the `regex` crate. Nothing in this module is proved:
//! each item states what is taken on trust from that crate.

use regex::Regex;
use vstd::prelude::*;

verus! {

/// A compiled regular expression of the `regex` crate. Its inside is hidden.
#[verifier::external_type_specification]
#[verifier::external_body]
pub struct ExRegex(Regex);

/// Whether `Regex::new` accepts `pattern`.
pub uninterp spec fn regex_compiles(pattern: Seq<char>) -> bool;

/// The text that an expression was compiled from: what `Regex::as_str`
/// returns for it.
pub uninterp spec fn regex_source(re: Regex) -> Seq<char>;

/// What `Regex::captures` finds for `re` in `haystack`: `None` where the
/// expression matches nowhere, else the text of each capture group of the
/// leftmost match, in the order of the groups and with the whole match at
/// index 0. A group that took no part in the match is `None`.
pub uninterp spec fn regex_captures(re: Regex, haystack: Seq<char>) -> Option<
    Seq<Option<Seq<char>>>,
>;

/// Calls `Regex::new`. The call succeeds exactly on the patterns that the
/// crate accepts, and the expression it gives remembers the pattern it was
/// compiled from.
#[verifier::external_body]
pub(crate) fn compile(pattern: &str) -> (compiled: Option<Regex>)
    ensures
        compiled is Some <==> regex_compiles(pattern@),
        compiled matches Some(re) ==> regex_source(re) == pattern@,
{
    Regex::new(pattern).ok()
}

/// Calls `Regex::captures` and copies the text of every group out of the
/// result. The result is the one that the crate computes for this expression
/// and this haystack.
#[verifier::external_body]
pub(crate) fn captures(re: &Regex, haystack: &str) -> (groups: Option<Vec<Option<String>>>)
    ensures
        groups.deep_view() == regex_captures(*re, haystack@),
{
    re.captures(haystack).map(
        |found| found.iter().map(|group| group.map(|m| m.as_str().to_string())).collect(),
    )
}

} // verus!
