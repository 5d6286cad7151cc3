//! Regular expressions used by the key and name validators, matched with
//! the `regex` crate.
use vstd::prelude::*;

verus! {

/// Asset keys, service system names and shop keys: lower-case latin letters,
/// digits, underscores and hyphens.
pub const ASSET_KEY_PATTERN: &'static str = "^[a-z0-9_-]+$";

/// Referral codes: 3 to 32 upper-case latin letters, digits, underscores or
/// hyphens.
pub const REFERRAL_CODE_PATTERN: &'static str = "^[A-Z0-9_-]{3,32}$";

/// Squad names: latin and cyrillic letters, spaces and hyphens.
pub const SQUAD_NAME_PATTERN: &'static str = "^[\\p{Latin}\\p{Cyrillic} -]+$";

/// Declares `regex::Error`, the error that `regex::Regex::new` gives for a pattern
/// that does not compile; verified code only carries it and tells it apart from success.
#[verifier::external_type_specification]
#[verifier::external_body]
pub struct ExRegexError(regex::Error);

/// Whether `regex::Regex::new` accepts the pattern.
pub uninterp spec fn pattern_compiles(pattern: Seq<char>) -> bool;

/// What `Regex::is_match` answers for the compiled pattern and the text.
pub uninterp spec fn pattern_matches(pattern: Seq<char>, text: Seq<char>) -> bool;

/// Compiles `pattern` with `regex::Regex::new` and asks `Regex::is_match`
/// about `text`. The contract claims only that the outcome is a function of
/// the pattern (compilation) and of the pattern and the text (matching).
#[verifier::external_body]
pub(crate) fn regex_matches(pattern: &str, text: &str) -> (r: Result<bool, regex::Error>)
    ensures
        r is Ok <==> pattern_compiles(pattern@),
        r matches Ok(b) ==> b == pattern_matches(pattern@, text@),
{
    regex::Regex::new(pattern).map(|re| re.is_match(text))
}

} // verus!
