//! Searching text with regular expressions.
//!
//! The searches are made by the `regex` crate. What it finds for a pattern
//! in a text is not proved here: it is given a name, and the rest of the
//! library is verified for whatever the search hands back.

use vstd::prelude::*;

verus! {

/// What the first match of `pattern` in `haystack` captures: one entry for
/// each group of the pattern, group 0 being the whole match, with the text
/// of the group, or `None` for a group that took no part in the match.
/// `None` where the pattern does not match, or is no regular expression.
pub uninterp spec fn regex_captures(pattern: Seq<char>, haystack: Seq<char>) -> Option<
    Seq<Option<Seq<char>>>,
>;

/// `haystack` with every match of `pattern`, taken from left to right
/// without overlap, replaced by what `replacement` stands for (a `$` in it
/// refers to a group of the match). `None` where the pattern is no regular
/// expression.
pub uninterp spec fn regex_replace_all(
    pattern: Seq<char>,
    haystack: Seq<char>,
    replacement: Seq<char>,
) -> Option<Seq<char>>;

/// Searches `haystack` for the first match of `pattern`.
///
/// Compiles the pattern with `regex::Regex::new` and searches with
/// `regex::Regex::captures`; the groups are copied out with
/// `regex::Captures::iter` and `regex::Match::as_str`. The contract claims
/// only that the outcome is the one named [`regex_captures`].
#[verifier::external_body]
pub(crate) fn captures(pattern: &str, haystack: &str) -> (groups: Option<Vec<Option<String>>>)
    ensures
        groups.deep_view() == regex_captures(pattern@, haystack@),
{
    let re = regex::Regex::new(pattern).ok()?;
    let caps = re.captures(haystack)?;
    Some(caps.iter().map(|group| group.map(|m| m.as_str().to_string())).collect())
}

/// Replaces every match of `pattern` in `haystack` by `replacement`.
///
/// Compiles the pattern with `regex::Regex::new` and replaces with
/// `regex::Regex::replace_all`. The contract claims that the outcome is the
/// one named [`regex_replace_all`], and, as the crate documents, that a
/// haystack in which the pattern finds no match comes back unchanged.
#[verifier::external_body]
pub(crate) fn replace_all(pattern: &str, haystack: &str, replacement: &str) -> (text: Option<
    String,
>)
    ensures
        text.deep_view() == regex_replace_all(pattern@, haystack@, replacement@),
        text is Some && regex_captures(pattern@, haystack@) is None ==> text.unwrap()@
            == haystack@,
{
    let re = regex::Regex::new(pattern).ok()?;
    Some(re.replace_all(haystack, replacement).into_owned())
}

} // verus!
