use vstd::math::abs;
use vstd::prelude::*;

verus! {

/// Accelerometer full-scale constant: raw counts per g.
pub const ACCEL_COUNTS_PER_G: u16 = 16384;

/// Gyroscope scale: raw counts per degree per second.
pub const GYRO_COUNTS_PER_DPS: u16 = 16;

/// Raw-count threshold: a jump below this is smoothed, a jump at or above
/// it snaps directly to the current reading.
pub const ACCEL_SMOOTH_THRESHOLD: u16 = 511;

/// Raw-count magnitude below which a gyro reading is treated as drift noise
/// and clamped to zero.
pub const GYRO_DEADZONE: u16 = 8;

/// Fixed-point scale of the smoothing state: one raw count is `SMOOTH_ONE`
/// state units, so a state value carries sixteen fractional bits.
pub const SMOOTH_ONE: u64 = 65536;

/// A well-formed smoothing state never exceeds the largest raw count.
pub open spec fn accel_state_wf(s: u64) -> bool {
    s <= 65535 * (SMOOTH_ONE as int)
}

/// One step of the exponential smoothing filter on a single accelerometer
/// axis, in fixed point. `prev` is the previous smoothed raw value scaled
/// by `SMOOTH_ONE`; `curr` is the current raw count. A jump smaller than
/// the threshold blends the two with weights 19/20 and 1/20 (the fixed-point
/// realization of 0.95 and 0.05, rounded toward zero); a larger jump is a
/// discontinuity and snaps to the current reading.
pub open spec fn spec_smooth_step(prev: u64, curr: u16) -> u64 {
    let target = curr * (SMOOTH_ONE as int);
    let delta = if target >= prev { target - prev } else { prev - target };
    if delta < ACCEL_SMOOTH_THRESHOLD * (SMOOTH_ONE as int) {
        ((19 * prev + target) / 20) as u64
    } else {
        target as u64
    }
}

/// The deadzone filter and unit conversion for one gyro axis. The result
/// is in sixteenths of a degree per second: with 16 raw counts per deg/s,
/// a raw count is exactly one sixteenth, so readings outside the deadzone
/// convert without loss.
pub open spec fn spec_gyro_dps16(raw: u16) -> u16 {
    if raw < GYRO_DEADZONE {
        0
    } else {
        raw
    }
}

/// Smooths one accelerometer axis against its previous fixed-point state.
///
/// The returned state divided by `SMOOTH_ONE` is the smoothed raw count;
/// divided further by `ACCEL_COUNTS_PER_G` it is the reading in g.
pub fn smooth_accel(prev: u64, curr: u16) -> (r: u64)
    requires
        accel_state_wf(prev),
    ensures
        r == spec_smooth_step(prev, curr),
        accel_state_wf(r),
{
    let target: u64 = (curr as u64) * SMOOTH_ONE;
    let delta: u64 = if target >= prev {
        target - prev
    } else {
        prev - target
    };
    if delta < (ACCEL_SMOOTH_THRESHOLD as u64) * SMOOTH_ONE {
        (19 * prev + target) / 20
    } else {
        target
    }
}

/// Converts one raw gyro axis to sixteenths of a degree per second,
/// clamping readings inside the deadzone to exactly zero.
pub fn convert_gyro_to_dps(raw: u16) -> (r: u16)
    ensures
        r == spec_gyro_dps16(raw),
        raw < GYRO_DEADZONE ==> r == 0,
        raw >= GYRO_DEADZONE ==> r == raw,
{
    if raw < GYRO_DEADZONE {
        0
    } else {
        raw
    }
}

/// Law of the smoothing filter: below the threshold the new state is the
/// 19/20-to-1/20 blend of the previous state and the current reading, at
/// or above the threshold it is exactly the current reading.
pub proof fn lemma_smooth_step_cases(prev: u64, curr: u16)
    requires
        accel_state_wf(prev),
    ensures
        abs(curr * (SMOOTH_ONE as int) - prev) < ACCEL_SMOOTH_THRESHOLD * (SMOOTH_ONE as int)
            ==> spec_smooth_step(prev, curr) == (19 * prev + curr * (SMOOTH_ONE as int)) / 20,
        abs(curr * (SMOOTH_ONE as int) - prev) >= ACCEL_SMOOTH_THRESHOLD * (SMOOTH_ONE as int)
            ==> spec_smooth_step(prev, curr) == curr * (SMOOTH_ONE as int),
{
}

} // verus!
