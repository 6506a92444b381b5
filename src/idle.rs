use vstd::prelude::*;

verus! {

/// The idle time reported for a measurement: its milliseconds cut to the
/// low 64 bits, or 0 when the measurement failed.
pub open spec fn reported_idle_millis(measured: Option<u128>) -> u64 {
    match measured {
        Some(ms) => (ms % 0x1_0000_0000_0000_0000) as u64,
        None => 0,
    }
}

/// Turns a measurement into the reported idle time; a failed measurement
/// reads as 0 and is never passed on as an error.
pub fn idle_millis_or_zero(measured: Option<u128>) -> (r: u64)
    ensures
        r == reported_idle_millis(measured),
{
    match measured {
        Some(ms) => {
            let low: u128 = ms & 0xFFFF_FFFF_FFFF_FFFFu128;
            assert(low == ms % 0x1_0000_0000_0000_0000u128) by (bit_vector)
                requires
                    low == ms & 0xFFFF_FFFF_FFFF_FFFFu128,
            ;
            assert(low <= 0xFFFF_FFFF_FFFF_FFFFu128) by (bit_vector)
                requires
                    low == ms & 0xFFFF_FFFF_FFFF_FFFFu128,
            ;
            low as u64
        },
        None => 0,
    }
}

} // verus!
