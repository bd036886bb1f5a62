//! Reading the answer of the examined service to one probe.

use vstd::prelude::*;

verus! {

/// Text that only the login form carries: the session is no longer valid.
pub const LOGIN_MARKER: &'static str = "cn_loginForm";

/// Text that only a page of grades carries: the probed identifier is valid.
pub const GRADES_MARKER: &'static str = " Noten";

/// Why a probe gave no answer.
#[derive(Clone, Copy, Debug, PartialEq, Eq, Structural)]
pub enum ProbeError {
    /// The request failed on the way.
    Transient,
    /// The service asked to log in again.
    Session,
}

/// `needle` stands somewhere in `haystack`, character by character.
pub open spec fn occurs_in(needle: Seq<char>, haystack: Seq<char>) -> bool {
    exists|at: int|
        0 <= at && at + needle.len() <= haystack.len() && #[trigger] haystack.subrange(
            at,
            at + needle.len(),
        ) == needle
}

/// Calls `str::contains` with a string as the pattern. Trusted: the result
/// says whether the pattern's characters stand in the text as one
/// contiguous run, which is what std documents for a string pattern.
#[verifier::external_body]
fn text_contains(haystack: &str, needle: &str) -> (found: bool)
    ensures
        found == occurs_in(needle@, haystack@),
{
    haystack.contains(needle)
}

/// Decides what a response body says about the probed identifier.
///
/// A body with the login marker is no answer: the session has expired.
/// Any other body is a match exactly if it carries the grades marker.
pub fn classify_response(body: &str) -> (verdict: Result<bool, ProbeError>)
    ensures
        occurs_in(LOGIN_MARKER@, body@) ==> verdict == Err::<bool, ProbeError>(
            ProbeError::Session,
        ),
        !occurs_in(LOGIN_MARKER@, body@) ==> verdict == Ok::<bool, ProbeError>(
            occurs_in(GRADES_MARKER@, body@),
        ),
{
    if text_contains(body, LOGIN_MARKER) {
        Err(ProbeError::Session)
    } else {
        Ok(text_contains(body, GRADES_MARKER))
    }
}

} // verus!
