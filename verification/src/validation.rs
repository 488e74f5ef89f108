//! Post-hoc result checks: duration drift against fixed tolerances, and the
//! size-reduction ratio reported after a compression job.

use vstd::prelude::*;

verus! {

/// Strict duration tolerance, in microseconds (a tenth of a second), used by
/// rate-conversion jobs.
pub const DURATION_TOLERANCE_MICROS: u64 = 100_000;

/// Looser duration tolerance, in microseconds (half a second), used by
/// upscale and compression jobs.
pub const LOOSE_DURATION_TOLERANCE_MICROS: u64 = 500_000;

/// Validate that the output duration is within the strict tolerance of the
/// input duration. Returns `(is_valid, difference)`, where the difference is
/// `output - input` in microseconds and validity holds exactly on the
/// tolerance boundary as well.
pub fn validate_duration(input_micros: u64, output_micros: u64) -> (r: (bool, i64))
    requires
        input_micros <= i64::MAX,
        output_micros <= i64::MAX,
    ensures
        r.1 == output_micros - input_micros,
        r.0 <==> -(DURATION_TOLERANCE_MICROS as int) <= r.1 <= DURATION_TOLERANCE_MICROS as int,
{
    let diff: i64 = output_micros as i64 - input_micros as i64;
    let is_valid = -(DURATION_TOLERANCE_MICROS as i64) <= diff
        && diff <= DURATION_TOLERANCE_MICROS as i64;
    (is_valid, diff)
}

/// Validate a duration under the looser tolerance used by upscale and
/// compression jobs: the absolute drift must be strictly below half a second.
pub fn validate_duration_loose(input_micros: u64, output_micros: u64) -> (r: (bool, u64))
    ensures
        r.1 == abs_diff(input_micros as int, output_micros as int),
        r.0 <==> r.1 < LOOSE_DURATION_TOLERANCE_MICROS,
{
    let diff: u64 = if output_micros >= input_micros {
        output_micros - input_micros
    } else {
        input_micros - output_micros
    };
    (diff < LOOSE_DURATION_TOLERANCE_MICROS, diff)
}

/// Absolute difference of two mathematical integers.
pub open spec fn abs_diff(a: int, b: int) -> int {
    if a >= b {
        a - b
    } else {
        b - a
    }
}

} // verus!
