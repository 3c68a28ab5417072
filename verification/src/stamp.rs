//! Stamps that come from outside: the time of day and fresh identifiers.

use vstd::prelude::*;

verus! {

/// Whether `chrono` reads a text as an RFC 3339 date and time.
pub uninterp spec fn rfc3339_valid(s: Seq<char>) -> bool;

/// `chrono::DateTime::parse_from_rfc3339`: whether the text is an RFC 3339
/// date and time with an offset, such as `1996-12-19T16:39:57-08:00`.
#[verifier::external_body]
pub(crate) fn is_rfc3339(s: &str) -> (r: bool)
    ensures
        r == rfc3339_valid(s@),
{
    chrono::DateTime::parse_from_rfc3339(s).is_ok()
}

/// `chrono::Utc::now` and `chrono::DateTime::to_rfc3339`: the current time
/// in UTC as an RFC 3339 text. Nothing is claimed of it: it depends on the
/// clock, and the call does not return if the clock stands before 1970.
#[verifier::external_body]
pub(crate) fn current_timestamp() -> (r: String) {
    chrono::Utc::now().to_rfc3339()
}

/// `uuid::Uuid::new_v4` and its `Display`: a random identifier in the
/// hyphenated form, which has 36 characters. Which identifier comes is
/// left open, and the call does not return if the system hands out no
/// random bytes.
#[verifier::external_body]
pub(crate) fn fresh_id() -> (r: String)
    ensures
        r@.len() == 36,
{
    uuid::Uuid::new_v4().to_string()
}

} // verus!
