//! Regular expressions, matched by the `regex` crate.

use vstd::prelude::*;

verus! {

#[verifier::external_type_specification]
#[verifier::external_body]
pub struct ExRegexError(regex::Error);

/// Whether a text is a regular expression that `regex` compiles.
pub uninterp spec fn pattern_compiles(pattern: Seq<char>) -> bool;

/// What the first capture group holds in the leftmost match of the
/// pattern in the text; `None` where the pattern does not match or the
/// group took no part in the match.
pub uninterp spec fn first_group(pattern: Seq<char>, text: Seq<char>) -> Option<Seq<char>>;

/// `Regex::new`, `Regex::captures` and `Captures::get` for group 1. An
/// error comes exactly when the pattern does not compile, whatever the
/// text. On success the result is the text of the first group in the
/// leftmost match, a function of pattern and text alone.
#[verifier::external_body]
pub(crate) fn capture_first_group(pattern: &str, text: &str) -> (found: Result<
    Option<String>,
    regex::Error,
>)
    ensures
        found is Ok <==> pattern_compiles(pattern@),
        found matches Ok(group) ==> group.deep_view() == first_group(pattern@, text@),
{
    let regex = regex::Regex::new(pattern)?;
    Ok(regex.captures(text).and_then(|groups| groups.get(1)).map(|m| m.as_str().to_string()))
}

} // verus!
