//! Shape queries of the native backend, stated and computed exactly.
use vstd::prelude::*;

verus! {

/// Width in Hz of one band of the coded aperiodicity.
pub const APERIODICITY_BAND_HZ: i64 = 3000;

/// Highest frequency in Hz that the coded aperiodicity describes.
pub const APERIODICITY_UPPER_HZ: i64 = 15000;

/// Number of bands of the coded aperiodicity at sample rate `fs`:
/// `min(upper, fs / 2 - band) / band`, truncated toward zero.
pub open spec fn number_of_aperiodicities(fs: int) -> int {
    let top = if 2 * APERIODICITY_UPPER_HZ <= fs - 2 * APERIODICITY_BAND_HZ {
        2 * APERIODICITY_UPPER_HZ
    } else {
        fs - 2 * APERIODICITY_BAND_HZ
    };
    // `top` is twice the highest coded frequency; division truncates toward zero.
    if top >= 0 {
        top / (2 * APERIODICITY_BAND_HZ)
    } else {
        -((-top) / (2 * APERIODICITY_BAND_HZ))
    }
}

/// Number of bands the aperiodicity is coded into at sample rate `fs`.
pub fn get_number_of_aperiodicities(fs: i32) -> (r: i32)
    ensures
        r == number_of_aperiodicities(fs as int),
{
    let fs: i64 = fs as i64;
    let top: i64 = if 2 * APERIODICITY_UPPER_HZ <= fs - 2 * APERIODICITY_BAND_HZ {
        2 * APERIODICITY_UPPER_HZ
    } else {
        fs - 2 * APERIODICITY_BAND_HZ
    };
    let r: i64 = if top >= 0 {
        top / (2 * APERIODICITY_BAND_HZ)
    } else {
        -((-top) / (2 * APERIODICITY_BAND_HZ))
    };
    r as i32
}

/// Number of analysis frames for `x_length` samples at sample rate `fs`
/// with one frame every `frame_period_us` microseconds: the exact quotient
/// of the signal's duration by the frame period, truncated, plus the frame
/// at time zero.
pub open spec fn frame_count(fs: int, x_length: int, frame_period_us: int) -> int {
    (1_000_000 * x_length) / (fs * frame_period_us) + 1
}

fn frames_for_period(fs: i32, x_length: i32, frame_period_us: i32) -> (r: u64)
    requires
        fs > 0,
        x_length >= 0,
        frame_period_us > 0,
    ensures
        r == frame_count(fs as int, x_length as int, frame_period_us as int),
{
    let duration: u64 = 1_000_000u64 * (x_length as u64);
    assert(0 < fs * frame_period_us <= 0x7fff_ffff * 0x7fff_ffff) by (nonlinear_arith)
        requires 0 < fs <= 0x7fff_ffff, 0 < frame_period_us <= 0x7fff_ffff;
    let period: u64 = (fs as u64) * (frame_period_us as u64);
    assert(0 <= (1_000_000 * x_length) / (fs * frame_period_us) <= 1_000_000 * x_length) by (nonlinear_arith)
        requires fs > 0, x_length >= 0, frame_period_us > 0;
    duration / period + 1
}

/// Frame count for the fast pitch estimator's track: `x_length` samples at
/// sample rate `fs`, one frame every `frame_period_us` microseconds. This is
/// the exact quotient, truncated, plus one. The native query computes the
/// same quotient in floating point from a period in milliseconds, so the
/// two may differ where the quotient is within rounding of a whole number.
pub fn get_samples_for_dio(fs: i32, x_length: i32, frame_period_us: i32) -> (r: u64)
    requires
        fs > 0,
        x_length >= 0,
        frame_period_us > 0,
    ensures
        r == frame_count(fs as int, x_length as int, frame_period_us as int),
{
    frames_for_period(fs, x_length, frame_period_us)
}

/// Frame count for the accurate pitch estimator's track, by the same exact
/// quotient as `get_samples_for_dio`. The native query computes it in
/// floating point from a period in milliseconds.
pub fn get_samples_for_harvest(fs: i32, x_length: i32, frame_period_us: i32) -> (r: u64)
    requires
        fs > 0,
        x_length >= 0,
        frame_period_us > 0,
    ensures
        r == frame_count(fs as int, x_length as int, frame_period_us as int),
{
    frames_for_period(fs, x_length, frame_period_us)
}

} // verus!
