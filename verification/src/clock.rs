//! Wall-clock time as a plain value.
//!
//! The contract's `now` operation is the one operation with a real default:
//! a reading of the system clock. The reading is exposed as milliseconds
//! since the Unix epoch, so contracts and callers work on a plain integer.

use vstd::prelude::*;

verus! {

/// A point in time, as whole milliseconds since the Unix epoch.
#[derive(Clone, Copy, Debug, PartialEq, Eq, Structural)]
pub struct Timestamp {
    pub millis_since_epoch: u64,
}

impl Timestamp {
    /// Packages a millisecond count as a timestamp.
    pub fn from_millis(millis: u64) -> (t: Timestamp)
        ensures
            t.millis_since_epoch == millis,
    {
        Timestamp { millis_since_epoch: millis }
    }
}

/// Relies on `std::time::SystemTime::now` and
/// `SystemTime::duration_since(UNIX_EPOCH)`: a reading of the real wall
/// clock. The value depends on when the call happens, so nothing is promised
/// about it; a clock set before the epoch reads as the epoch itself.
#[verifier::external_body]
pub fn system_now() -> Timestamp {
    let millis = match std::time::SystemTime::now().duration_since(std::time::UNIX_EPOCH) {
        Ok(d) => d.as_millis() as u64,
        Err(_) => 0,
    };
    Timestamp { millis_since_epoch: millis }
}

} // verus!
