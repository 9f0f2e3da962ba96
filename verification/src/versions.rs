//! Finding the version numbers in the listing of available versions.

use regex::Regex;
use vstd::prelude::*;

use crate::text::texts;

verus! {

#[verifier::external_type_specification]
#[verifier::external_body]
pub struct ExRegexError(regex::Error);

/// Whether the regex crate accepts the pattern.
pub uninterp spec fn pattern_accepted(pattern: Seq<char>) -> bool;

/// The parts of the text that match the pattern, as the regex crate finds
/// them: one after another from the left, none overlapping another.
pub uninterp spec fn pattern_matches(pattern: Seq<char>, text: Seq<char>) -> Seq<Seq<char>>;

/// A version number: two or three runs of digits with a dot between each two.
/// Where three runs stand, all three are taken.
pub const VERSION_PATTERN: &'static str = "([0-9]+\\.[0-9]+\\.[0-9]+|[0-9]+\\.[0-9]+)";

/// Why nothing could be looked for.
#[derive(Clone, Copy, Debug, PartialEq, Eq)]
pub enum VersionsError {
    /// The pattern was not accepted.
    Pattern,
}

/// `regex::Regex::new`, then `Regex::find_iter` and `Match::as_str` on each
/// match. Trusted: the call fails exactly on a pattern that the crate does
/// not accept, and otherwise gives the matches in the order in which they
/// were found.
#[verifier::external_body]
fn find_all(pattern: &str, text: &str) -> (found: Result<Vec<String>, regex::Error>)
    ensures
        found is Ok <==> pattern_accepted(pattern@),
        found matches Ok(list) ==> texts(list@) == pattern_matches(pattern@, text@),
{
    let regex = Regex::new(pattern)?;
    Ok(regex.find_iter(text).map(|found| found.as_str().to_string()).collect())
}

/// The parts of the text that match the pattern, in their order, or the
/// error where the pattern is not accepted.
pub fn find_matches(pattern: &str, text: &str) -> (found: Result<Vec<String>, VersionsError>)
    ensures
        found is Ok <==> pattern_accepted(pattern@),
        found matches Ok(list) ==> texts(list@) == pattern_matches(pattern@, text@),
{
    match find_all(pattern, text) {
        Ok(list) => Ok(list),
        Err(_) => Err(VersionsError::Pattern),
    }
}

/// The version numbers that stand in the listing, in their order.
pub fn get_versions(listing: &str) -> (found: Result<Vec<String>, VersionsError>)
    ensures
        found is Ok <==> pattern_accepted(VERSION_PATTERN@),
        found matches Ok(versions) ==> texts(versions@) == pattern_matches(
            VERSION_PATTERN@,
            listing@,
        ),
{
    find_matches(VERSION_PATTERN, listing)
}

} // verus!
