//! Units of the fixed-point world and the few arithmetic helpers the
//! simulation shares.
//!
//! Lengths and speeds are whole thousandths of a world unit, timers whole
//! millionths of a time unit, and frame deltas whole thousandths of a
//! frame. All state is integral, so a run is reproducible bit for bit.
use vstd::prelude::*;

verus! {

/// Length steps in one world unit.
pub const UNIT: i64 = 1000;

/// Timer steps in one time unit.
pub const TIME_UNIT: i64 = 1_000_000;

/// Delta steps in one frame.
pub const FRAME: u32 = 1000;

/// Largest magnitude of the player's horizontal position.
pub const PLAYER_LIMIT: i64 = 1_000_000_000_000_000;

/// Largest magnitude of every other horizontal position, of platform and
/// pickup heights, and the greatest depth of a body.
pub const WORLD_LIMIT: i64 = 2_000_000_000_000_000;

/// Greatest height above the origin a body can reach; vertical positions
/// grow downwards, so this bounds them from below.
pub const SKY_LIMIT: i64 = 3_000_000_000_000_000;

/// Largest magnitude of a speed, in length steps per frame.
pub const SPEED_LIMIT: i64 = 1_000_000_000_000_000;

/// Largest magnitude of a rectangle's corner coordinates.
pub const RECT_LIMIT: i64 = 4_000_000_000_000_000;

/// `value` limited to the closed range from `low` to `high`.
pub open spec fn clamp_spec(value: int, low: int, high: int) -> int {
    if value < low {
        low
    } else if value > high {
        high
    } else {
        value
    }
}

/// Limits `value` to the closed range from `low` to `high`.
pub fn clamp(value: i64, low: i64, high: i64) -> (r: i64)
    requires
        low <= high,
    ensures
        r == clamp_spec(value as int, low as int, high as int),
        low <= r <= high,
{
    if value < low {
        low
    } else if value > high {
        high
    } else {
        value
    }
}

/// The quotient of `value` by a positive `divisor`, rounded toward zero.
pub open spec fn div_toward_zero(value: int, divisor: int) -> int
    recommends
        divisor > 0,
{
    if value >= 0 {
        value / divisor
    } else {
        -((-value) / divisor)
    }
}

/// Divides by a positive divisor, rounding toward zero.
pub fn divide_toward_zero(value: i64, divisor: i64) -> (r: i64)
    requires
        divisor > 0,
        value > i64::MIN,
    ensures
        r == div_toward_zero(value as int, divisor as int),
{
    if value >= 0 {
        value / divisor
    } else {
        -((-value) / divisor)
    }
}

/// The magnitude of the quotient never exceeds that of the dividend, and
/// the quotient keeps the dividend's sign.
pub proof fn lemma_div_toward_zero_bounds(value: int, divisor: int)
    requires
        divisor > 0,
    ensures
        value >= 0 ==> 0 <= div_toward_zero(value, divisor) <= value,
        value <= 0 ==> value <= div_toward_zero(value, divisor) <= 0,
{
    if value >= 0 {
        assert(0 <= value / divisor <= value) by (nonlinear_arith)
            requires
                value >= 0,
                divisor > 0,
        ;
    } else {
        let m = -value;
        assert(0 <= m / divisor <= m) by (nonlinear_arith)
            requires
                m >= 0,
                divisor > 0,
        ;
    }
}

} // verus!
