//! Regular expressions of the `regex` crate, as far as the recognizers need
//! them. Nothing in this file is proved: the contracts say what the library
//! takes the crate's functions to do.

use vstd::prelude::*;

verus! {

/// `regex::Regex`, a compiled regular expression. Its inside is not visible
/// to the verifier.
#[verifier::external_type_specification]
#[verifier::external_body]
pub struct ExRegex(regex::Regex);

/// `regex::Error`, the reason why a pattern was not compiled.
#[verifier::external_type_specification]
#[verifier::external_body]
pub struct ExRegexError(regex::Error);

/// Whether `regex::Regex::new` accepts `pattern`.
pub uninterp spec fn compiles(pattern: Seq<char>) -> bool;

/// The text that decides what `re` matches. For an expression that
/// `regex::Regex::new` made it is the pattern that was compiled.
pub uninterp spec fn source(re: regex::Regex) -> Seq<char>;

/// What `regex::Regex::captures` finds in `haystack` for the regular
/// expression that `regex::Regex::new` makes of `pattern`: `None` where
/// nothing matches, else the text of every capture group of the first match,
/// group 0 (the whole match) included, `None` for a group that took no part
/// in it.
pub uninterp spec fn first_match(pattern: Seq<char>, haystack: Seq<char>) -> Option<
    Seq<Option<Seq<char>>>,
>;

/// `regex::Regex::new` compiles a pattern or refuses it; which of the two
/// depends on the pattern alone, and so does what the compiled expression
/// matches.
pub assume_specification[ regex::Regex::new ](re: &str) -> (r: Result<regex::Regex, regex::Error>)
    ensures
        r is Ok <==> compiles(re@),
        r matches Ok(compiled) ==> source(compiled) == re@,
;

/// Runs `regex::Regex::captures` on `haystack` and copies the text of each
/// capture group of the first match out of it. What is found depends on the
/// expression and the haystack alone.
#[verifier::external_body]
pub(crate) fn captures(re: &regex::Regex, haystack: &str) -> (groups: Option<Vec<Option<String>>>)
    ensures
        groups.deep_view() == first_match(source(*re), haystack@),
{
    match re.captures(haystack) {
        Some(found) => Some(found.iter().map(|g| g.map(|m| m.as_str().to_string())).collect()),
        None => None,
    }
}

} // verus!
