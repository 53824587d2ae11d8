//! Regular-expression matching, as the `regex` crate performs it.
use vstd::prelude::*;

verus! {

/// Whether `text` matches the regular expression `pattern`
/// (false where `pattern` is not a valid expression).
pub uninterp spec fn regex_matches(pattern: Seq<char>, text: Seq<char>) -> bool;

/// The text of the first capture group of the leftmost match of `pattern` in `text`,
/// or `None` where there is no match, the group took no part in it,
/// or `pattern` is not a valid expression.
pub uninterp spec fn regex_group_one(pattern: Seq<char>, text: Seq<char>) -> Option<Seq<char>>;

/// Relies on `regex::Regex::new` and `regex::Regex::is_match`: whether the text matches.
#[verifier::external_body]
pub(crate) fn is_match(pattern: &str, text: &str) -> (r: bool)
    ensures
        r == regex_matches(pattern@, text@),
{
    match regex::Regex::new(pattern) {
        Ok(re) => re.is_match(text),
        Err(_) => false,
    }
}

/// Relies on `regex::Regex::new`, `regex::Regex::captures` and `regex::Captures::get`:
/// the first capture group of the leftmost match.
#[verifier::external_body]
pub(crate) fn first_group(pattern: &str, text: &str) -> (r: Option<String>)
    ensures
        r matches Some(g) ==> regex_group_one(pattern@, text@) == Some(g@),
        r is None ==> regex_group_one(pattern@, text@) is None,
{
    let re = match regex::Regex::new(pattern) {
        Ok(re) => re,
        Err(_) => return None,
    };
    match re.captures(text) {
        Some(caps) => match caps.get(1) {
            Some(m) => Some(m.as_str().to_string()),
            None => None,
        },
        None => None,
    }
}

} // verus!
