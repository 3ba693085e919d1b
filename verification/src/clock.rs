//! The one place where the library touches the machine clock.
//!
//! Every decision that depends on the time is made by a verified `*_at`
//! function that takes the clock reading as an argument; the convenience
//! entry points read the clock here and delegate to those.

use vstd::prelude::*;

verus! {

/// Relies on std::time::SystemTime::now: the wall-clock seconds elapsed
/// since the Unix epoch, or 0 if the clock reads earlier than the epoch.
/// Nothing can be promised of the value: callers state what holds of every
/// outcome.
#[verifier::external_body]
pub(crate) fn now_seconds() -> u64 {
    match std::time::SystemTime::now().duration_since(std::time::UNIX_EPOCH) {
        Ok(d) => d.as_secs(),
        Err(_) => 0,
    }
}

} // verus!
