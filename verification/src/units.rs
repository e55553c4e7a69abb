//! Fixed-point quantities and the steps by which the controller changes them.

use vstd::prelude::*;

verus! {

/// The speed at which a clip plays as it was authored.
pub const NORMAL_SPEED: i64 = 1000;

/// One press of a speed key changes the playback speed by a tenth.
pub const SPEED_STEP: i64 = 100;

/// One press of an arrow key changes the scroll velocity by a tenth.
pub const VELOCITY_STEP: i64 = 100;

/// One press of a seek key moves the clip time by a tenth of a second.
pub const SEEK_STEP: i64 = 100;

/// The time, in milliseconds, over which the controller blends into the next clip.
pub const BLEND_MS: u64 = 250;

/// `value + delta`, held at the nearest bound of `i64` where the sum lies outside it.
pub open spec fn shifted(value: i64, delta: i64) -> i64 {
    if value + delta > i64::MAX {
        i64::MAX
    } else if value + delta < i64::MIN {
        i64::MIN
    } else {
        (value + delta) as i64
    }
}

/// Adds `delta` to `value`. No range is imposed on the result: it is the exact
/// sum wherever an `i64` can hold it.
pub fn shift(value: i64, delta: i64) -> (r: i64)
    ensures
        r == shifted(value, delta),
{
    match value.checked_add(delta) {
        Some(sum) => sum,
        None => if delta > 0 {
            i64::MAX
        } else {
            i64::MIN
        },
    }
}

} // verus!
