use vstd::prelude::*;

use crate::message::TIMESTAMP_MODULUS;

verus! {

/// Microseconds between the Unix epoch and 2015-01-01T00:00:00Z, the
/// reference epoch of signature timestamps.
pub const SIGNING_EPOCH_UNIX_MICROS: u128 = 1_420_070_400_000_000;

/// Signature timestamp ticks at `unix_micros` microseconds after the Unix
/// epoch: ten-microsecond ticks counted from the 2015 reference epoch, zero
/// for any reading before that date, wrapping at the 48-bit range (around
/// the year 2104).
pub open spec fn spec_ticks(unix_micros: int) -> int {
    if unix_micros >= SIGNING_EPOCH_UNIX_MICROS {
        ((unix_micros - SIGNING_EPOCH_UNIX_MICROS) / 10) % (TIMESTAMP_MODULUS as int)
    } else {
        0
    }
}

/// Relies on `std::time::SystemTime::now` and `duration_since`: the reading
/// is the wall clock in microseconds since the Unix epoch, or zero when the
/// clock reports an earlier time. Nothing can be promised of its value.
#[verifier::external_body]
pub(crate) fn unix_time_micros() -> u128 {
    std::time::SystemTime::now()
        .duration_since(std::time::UNIX_EPOCH)
        .map(|d| d.as_micros())
        .unwrap_or(0)
}

/// Converts a wall-clock reading in microseconds since the Unix epoch into
/// signature timestamp ticks.
pub fn ticks_from_unix_micros(unix_micros: u128) -> (r: u64)
    ensures
        r == spec_ticks(unix_micros as int),
        r < TIMESTAMP_MODULUS,
{
    if unix_micros >= SIGNING_EPOCH_UNIX_MICROS {
        let elapsed: u128 = (unix_micros - SIGNING_EPOCH_UNIX_MICROS) / 10;
        (elapsed % (TIMESTAMP_MODULUS as u128)) as u64
    } else {
        0
    }
}

} // verus!
