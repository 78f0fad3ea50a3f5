//! The time of an install.

use vstd::prelude::*;

verus! {

/// Reads the system clock with `std::time::SystemTime::now`, turns the
/// moment into a `chrono::DateTime<Utc>` by chrono's `From<SystemTime>`,
/// which also takes a clock that is set before 1970, and writes it down with
/// `chrono::DateTime::to_rfc3339`. The text differs from call to call; what
/// holds of each is its least length: a year of at least four digits, then
/// `-MM-DDTHH:MM:SS`, a fraction of the second where there is one, and the
/// offset `+00:00`.
#[verifier::external_body]
pub(crate) fn now_rfc3339() -> (stamp: String)
    ensures
        stamp@.len() >= 25,
{
    chrono::DateTime::<chrono::Utc>::from(std::time::SystemTime::now()).to_rfc3339()
}

} // verus!
