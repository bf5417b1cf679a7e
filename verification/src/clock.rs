//! The wall clock, read through the timestamp format the status reports carry.

use vstd::prelude::*;

verus! {

/// Relies on chrono::Utc::now and chrono::DateTime::to_rfc3339: the moment of
/// the call rendered as an RFC 3339 timestamp, never empty. Utc::now aborts
/// on a machine clock set before the Unix epoch, a limit of the machine akin
/// to exhausting memory.
#[verifier::external_body]
pub(crate) fn now_rfc3339() -> (ts: String)
    ensures
        ts@.len() > 0,
{
    chrono::Utc::now().to_rfc3339()
}

} // verus!
