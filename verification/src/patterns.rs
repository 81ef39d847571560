//! Regular expressions over text.

use crate::text;
use vstd::prelude::*;

verus! {

/// The first group of the first match of a pattern in a text, as the `regex` crate finds it.
pub uninterp spec fn group_of(pattern: Seq<char>, text: Seq<char>) -> Option<Seq<char>>;

/// The first group of each match of a pattern in a text, as the `regex` crate finds them.
pub uninterp spec fn groups_of(pattern: Seq<char>, text: Seq<char>) -> Seq<Option<Seq<char>>>;

/// The texts of optional groups.
pub open spec fn group_texts(groups: Seq<Option<String>>) -> Seq<Option<Seq<char>>> {
    Seq::new(groups.len(), |i: int| text::text_opt(groups[i]))
}

/// `regex::Regex::captures`, then `Captures::get(1)`: what the first capture group matched
/// in the leftmost match of the pattern. `None` without a match, when the group took no part
/// in it, and for a pattern that does not compile. Which text that is, is left to the crate:
/// the result is only named.
#[verifier::external_body]
pub(crate) fn first_group(pattern: &str, text: &str) -> (r: Option<String>)
    ensures
        text::text_opt(r) == group_of(pattern@, text@),
{
    match regex::Regex::new(pattern) {
        Ok(re) => re.captures(text).and_then(|c| c.get(1).map(|m| m.as_str().to_string())),
        Err(_) => None,
    }
}

/// `regex::Regex::captures_iter`, then `Captures::get(1)` on each match: what the first
/// capture group matched in each of the successive non-overlapping matches, `None` where it
/// took no part. No match for a pattern that does not compile. The result is only named.
#[verifier::external_body]
pub(crate) fn all_groups(pattern: &str, text: &str) -> (r: Vec<Option<String>>)
    ensures
        group_texts(r@) == groups_of(pattern@, text@),
{
    match regex::Regex::new(pattern) {
        Ok(re) => re.captures_iter(text).map(
            |c| c.get(1).map(|m| m.as_str().to_string()),
        ).collect(),
        Err(_) => Vec::new(),
    }
}

} // verus!
