//! Cleaning one line of a cue's text: tags, a leading dash and a few
//! character entities are taken out.

use crate::pattern::{regex_captures, regex_replace_all, replace_all};
use crate::text::{chars_of, matches_at, occurs_at};
use vstd::prelude::*;

verus! {

/// An opening tag: `<`, one or more of letters, digits and `. , : _ -`, `>`.
pub const OPEN_TAG_PATTERN: &'static str = "<[0-9a-zA-Z\\.,:_\\-]+>";

/// A closing tag: `</`, one or more of letters, digits and `. , : _ -`, `>`.
pub const CLOSE_TAG_PATTERN: &'static str = "</[0-9a-zA-Z\\.,:_\\-]+>";

/// A dash and a space at the very start of the line.
pub const LEADING_DASH_PATTERN: &'static str = "^\\- ";

/// `s` without `needle`: the occurrences are taken out from left to right,
/// and what is left is not searched again.
pub open spec fn without(s: Seq<char>, needle: Seq<char>) -> Seq<char>
    decreases s.len(),
{
    if needle.len() == 0 || s.len() == 0 {
        s
    } else if occurs_at(s, 0, needle) {
        without(s.skip(needle.len() as int), needle)
    } else {
        seq![s.first()] + without(s.drop_first(), needle)
    }
}

/// Whether `needle` stands somewhere in `s`.
pub open spec fn occurs(s: Seq<char>, needle: Seq<char>) -> bool {
    exists|at: int| occurs_at(s, at, needle)
}

/// Taking out what does not occur changes nothing.
pub proof fn lemma_without_absent(s: Seq<char>, needle: Seq<char>)
    requires
        !occurs(s, needle),
    ensures
        without(s, needle) == s,
    decreases s.len(),
{
    if needle.len() > 0 && s.len() > 0 {
        let rest = s.drop_first();
        assert forall|at: int| !occurs_at(rest, at, needle) by {
            if occurs_at(rest, at, needle) {
                assert(rest.subrange(at, at + needle.len()) == s.subrange(
                    at + 1,
                    at + 1 + needle.len(),
                ));
                assert(occurs_at(s, at + 1, needle));
            }
        }
        lemma_without_absent(rest, needle);
    }
}

/// The text without `needle`.
pub fn remove_all(text: &str, needle: &str) -> (rest: String)
    ensures
        rest@ == without(text@, needle@),
{
    let v = chars_of(text);
    let piece = chars_of(needle);
    let n = v.len();
    let k = piece.len();
    if k == 0 {
        return text.to_owned();
    }
    let mut rest = String::new();
    let mut i: usize = 0;
    proof {
        assert(v@.skip(0) == v@);
    }
    while i < n
        invariant
            i <= n == v.len(),
            0 < k == piece.len(),
            without(v@, piece@) == rest@ + without(v@.skip(i as int), piece@),
        decreases n - i,
    {
        let ghost tail = v@.skip(i as int);
        proof {
            if i + k <= n {
                assert(tail.subrange(0, k as int) == v@.subrange(i as int, i + k));
            }
        }
        if matches_at(&v, i, &piece) {
            proof {
                assert(tail.skip(k as int) == v@.skip(i + k));
            }
            i += k;
        } else {
            rest.push(v[i]);
            proof {
                assert(tail.drop_first() == v@.skip(i + 1));
            }
            i += 1;
        }
    }
    rest
}

/// `s` without the six character entities, each taken out of what the one
/// before it left.
pub open spec fn without_entities(s: Seq<char>) -> Seq<char> {
    let s1 = without(s, "&amp;"@);
    let s2 = without(s1, "&lt;"@);
    let s3 = without(s2, "&gt;"@);
    let s4 = without(s3, "&lrm;"@);
    let s5 = without(s4, "&rlm;"@);
    without(s5, "&nbsp;"@)
}

/// Whether one of the six character entities stands somewhere in `s`.
pub open spec fn has_entity(s: Seq<char>) -> bool {
    ||| occurs(s, "&amp;"@)
    ||| occurs(s, "&lt;"@)
    ||| occurs(s, "&gt;"@)
    ||| occurs(s, "&lrm;"@)
    ||| occurs(s, "&rlm;"@)
    ||| occurs(s, "&nbsp;"@)
}

/// Takes the character entities `&amp;`, `&lt;`, `&gt;`, `&lrm;`, `&rlm;`
/// and `&nbsp;` out of the text. They are deleted, not decoded.
pub fn strip_entities(text: &str) -> (rest: String)
    ensures
        rest@ == without_entities(text@),
        !has_entity(text@) ==> rest@ == text@,
{
    proof {
        if !has_entity(text@) {
            lemma_without_absent(text@, "&amp;"@);
            lemma_without_absent(text@, "&lt;"@);
            lemma_without_absent(text@, "&gt;"@);
            lemma_without_absent(text@, "&lrm;"@);
            lemma_without_absent(text@, "&rlm;"@);
            lemma_without_absent(text@, "&nbsp;"@);
        }
    }
    let s1 = remove_all(text, "&amp;");
    let s2 = remove_all(s1.as_str(), "&lt;");
    let s3 = remove_all(s2.as_str(), "&gt;");
    let s4 = remove_all(s3.as_str(), "&lrm;");
    let s5 = remove_all(s4.as_str(), "&rlm;");
    remove_all(s5.as_str(), "&nbsp;")
}

/// `s` with the matches of `pattern` taken out; `s` itself where the pattern
/// is no regular expression.
pub open spec fn pruned(pattern: Seq<char>, s: Seq<char>) -> Seq<char> {
    match regex_replace_all(pattern, s, Seq::empty()) {
        Some(rest) => rest,
        None => s,
    }
}

/// Takes the matches of `pattern` out of the text.
fn prune(pattern: &str, text: String) -> (rest: String)
    ensures
        rest@ == pruned(pattern@, text@),
        regex_captures(pattern@, text@) is None ==> rest@ == text@,
{
    proof {
        reveal_strlit("");
        assert(""@ =~= Seq::<char>::empty());
    }
    match replace_all(pattern, text.as_str(), "") {
        Some(rest) => rest,
        None => text,
    }
}

/// What sanitizing the line `s` gives: opening tags are taken out, then
/// closing tags, then a dash and a space at the start, then the character
/// entities.
pub open spec fn sanitized(s: Seq<char>) -> Seq<char> {
    let s1 = pruned(OPEN_TAG_PATTERN@, s);
    let s2 = pruned(CLOSE_TAG_PATTERN@, s1);
    let s3 = pruned(LEADING_DASH_PATTERN@, s2);
    without_entities(s3)
}

/// Whether nothing is left to sanitize in `s`: no pattern finds a match, and
/// no character entity occurs.
pub open spec fn is_clean(s: Seq<char>) -> bool {
    &&& regex_captures(OPEN_TAG_PATTERN@, s) is None
    &&& regex_captures(CLOSE_TAG_PATTERN@, s) is None
    &&& regex_captures(LEADING_DASH_PATTERN@, s) is None
    &&& !has_entity(s)
}

/// Cleans one line of text: takes out the tags, a leading dash with its
/// space, and the character entities. A line in which nothing of this is
/// left comes back as it is.
pub fn sanitize_text(input: &str) -> (line: String)
    ensures
        line@ == sanitized(input@),
        is_clean(input@) ==> line@ == input@,
{
    let s1 = prune(OPEN_TAG_PATTERN, input.to_owned());
    let s2 = prune(CLOSE_TAG_PATTERN, s1);
    let s3 = prune(LEADING_DASH_PATTERN, s2);
    strip_entities(s3.as_str())
}

} // verus!
