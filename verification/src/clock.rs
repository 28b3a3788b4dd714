//! Wall-clock access for the timer-driven scheduler loop.  The tick logic
//! itself takes the instant as a plain value and is verified for every
//! value; this module only produces one.

use vstd::prelude::*;

use crate::types::MAX_TIME;

verus! {

/// Relies on std's `SystemTime::now` and `SystemTime::duration_since`
/// against `UNIX_EPOCH`: the whole seconds elapsed since the unix epoch, or
/// `None` when the host clock is set before it.  Neither call panics, so
/// the clock really may be set to anything; nothing is assumed of the
/// value.
#[verifier::external_body]
fn unix_now() -> Option<u64> {
    match std::time::SystemTime::now().duration_since(std::time::UNIX_EPOCH) {
        Ok(elapsed) => Some(elapsed.as_secs()),
        Err(_) => None,
    }
}

/// The instant a scheduler tick runs at: the wall clock, clamped into the
/// store's time bounds so that, whatever the clock returned, the result is
/// a valid tick instant.  A pre-epoch clock reads as the epoch itself.
pub fn clock_time() -> (r: i64)
    ensures
        0 <= r <= MAX_TIME,
{
    match unix_now() {
        None => 0,
        Some(secs) => {
            if secs > (MAX_TIME as u64) {
                MAX_TIME
            } else {
                secs as i64
            }
        },
    }
}

} // verus!
