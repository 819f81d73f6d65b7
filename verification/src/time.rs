//! Timestamps and the conversion from a click rate to a repetition interval.

use vstd::prelude::*;

verus! {

/// The length in milliseconds of one repetition interval at `cps` clicks per
/// second: `1000 / cps`, rounded to the nearest millisecond (half up).
pub open spec fn spec_cps_to_millis(cps: int) -> int
    recommends
        cps >= 1,
{
    (2000 + cps) / (2 * cps)
}

/// Converts a click rate (clicks per second) to the length in milliseconds of
/// one repetition interval, rounding to the nearest millisecond.
pub fn cps_to_millis(cps: u32) -> (r: i64)
    requires
        cps >= 1,
    ensures
        r == spec_cps_to_millis(cps as int),
        r >= 0,
{
    let c: u64 = cps as u64;
    let q: u64 = (2000 + c) / (2 * c);
    proof {
        vstd::arithmetic::div_mod::lemma_div_is_ordered_by_denominator(
            2000 + c as int,
            2,
            2 * c as int,
        );
    }
    q as i64
}

/// The current wall-clock time in milliseconds since the Unix epoch.
///
/// Relies on `chrono::Utc::now` and `DateTime::timestamp_millis`; nothing is
/// assumed about the value returned.
#[verifier::external_body]
pub fn get_timestamp() -> i64 {
    chrono::Utc::now().timestamp_millis()
}

} // verus!
