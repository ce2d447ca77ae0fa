//! Searching a text with a regular expression, as the `regex` crate does it.
//! The two functions of this module make the calls into that crate; their
//! contracts are not proved.

use crate::text::text_of;
use vstd::prelude::*;

verus! {

/// `regex::Regex`, a compiled regular expression.
#[verifier::external_type_specification]
#[verifier::external_body]
pub struct ExRegex(regex::Regex);

/// The pattern that `re` was compiled from. What `Regex::as_str` returns.
pub uninterp spec fn regex_pattern(re: regex::Regex) -> Seq<char>;

/// Whether `pattern` is a regular expression that `Regex::new` compiles.
pub uninterp spec fn regex_compiles(pattern: Seq<char>) -> bool;

/// The part of `text` that capture group `group` matched in the first match
/// of `pattern`, where there is a match and the group took part in it. What
/// `Regex::captures`, then `Captures::get`, then `Match::as_str` return.
pub uninterp spec fn regex_group(pattern: Seq<char>, text: Seq<char>, group: nat) -> Option<
    Seq<char>,
>;

/// Calls `Regex::new`: the compiled form of `pattern`, or `None` where the
/// pattern is not valid or its compiled form is over the crate's size limit.
#[verifier::external_body]
pub(crate) fn regex_new(pattern: &str) -> (r: Option<regex::Regex>)
    ensures
        r is Some == regex_compiles(pattern@),
        r matches Some(re) ==> regex_pattern(re) == pattern@,
{
    regex::Regex::new(pattern).ok()
}

/// Calls `Regex::captures` and takes the text of one capture group of the
/// match with `Captures::get` and `Match::as_str`: `None` where the text has
/// no match, where the pattern has no such group, and where the group took
/// no part in the match.
#[verifier::external_body]
pub(crate) fn regex_capture(re: &regex::Regex, text: &str, group: usize) -> (r: Option<String>)
    ensures
        text_of(r) == regex_group(regex_pattern(*re), text@, group as nat),
{
    re.captures(text).and_then(|found| found.get(group)).map(|part| part.as_str().to_string())
}

} // verus!
