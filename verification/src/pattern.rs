//! Pattern matching, by the crate `regex`.

use vstd::prelude::*;

verus! {

/// The groups of one match: the whole match first, then each group of the
/// pattern, `None` where the group took no part.
pub type MatchGroups = Vec<Option<String>>;

/// All matches of `pattern` in `text` that do not overlap, from left to right,
/// each with its groups, as `regex::Regex::captures_iter` finds them; `None`
/// where `regex::Regex::new` rejects the pattern.
pub uninterp spec fn regex_captures(pattern: Seq<char>, text: Seq<char>) -> Option<
    Seq<Seq<Option<Seq<char>>>>,
>;

/// The leftmost match of `pattern` in `text`, as `regex::Regex::find` finds
/// it; `None` where nothing matches or `regex::Regex::new` rejects the
/// pattern.
pub uninterp spec fn regex_first_match(pattern: Seq<char>, text: Seq<char>) -> Option<Seq<char>>;

/// Compiles `pattern` with `regex::Regex::new` and collects what
/// `Regex::captures_iter` yields on `text`: for each match the text of each
/// group, by `Captures::iter` and `Match::as_str`. Both depend on the two
/// arguments alone, so the contract names the result [`regex_captures`].
#[verifier::external_body]
pub(crate) fn find_captures(pattern: &str, text: &str) -> (found: Option<Vec<MatchGroups>>)
    ensures
        found.deep_view() == regex_captures(pattern@, text@),
{
    let regex = match regex::Regex::new(pattern) {
        Ok(regex) => regex,
        Err(_) => return None,
    };
    Some(
        regex.captures_iter(text).map(
            |groups| groups.iter().map(|m| m.map(|m| m.as_str().to_string())).collect(),
        ).collect(),
    )
}

/// Compiles `pattern` with `regex::Regex::new` and takes the text of what
/// `Regex::find` finds in `text`, by `Match::as_str`. Both depend on the two
/// arguments alone, so the contract names the result [`regex_first_match`].
#[verifier::external_body]
pub(crate) fn find_first(pattern: &str, text: &str) -> (found: Option<String>)
    ensures
        found.deep_view() == regex_first_match(pattern@, text@),
{
    let regex = match regex::Regex::new(pattern) {
        Ok(regex) => regex,
        Err(_) => return None,
    };
    regex.find(text).map(|m| m.as_str().to_string())
}

} // verus!
