//! Corridor-based ecological safety governor.
//!
//! The library gates physical actuation and environmental-policy changes
//! against multi-dimensional safety envelopes.  All real-valued quantities
//! are held in fixed point: an `i64` counts thousandths of the underlying
//! unit, so `1500` stands for `1.5`.

use vstd::prelude::*;

pub mod bands;
pub mod chain;
pub mod clock;
pub mod eco;
pub mod guard;
pub mod hive;
pub mod kernel;
pub mod oracle;
pub mod risk;
pub mod router;

verus! {

/// Number of fixed-point steps per whole unit: values are in thousandths.
pub const SCALE: i64 = 1000;

/// Magnitude bound on configuration values (weights, coefficients,
/// sensitivities).  Keeping them at or below `MAG` lets every product in the
/// governor be computed without overflow.
pub const MAG: i64 = 1_000_000_000_000;

/// Clamp a mathematical value into the unit interval `[0, SCALE]`.
pub open spec fn clamp_unit(x: int) -> int {
    if x < 0 {
        0
    } else if x > SCALE {
        SCALE as int
    } else {
        x
    }
}

/// Clamp a wide intermediate value into the unit interval `[0, SCALE]`.
pub fn clamp_unit_exec(x: i128) -> (r: i64)
    ensures
        r == clamp_unit(x as int),
{
    if x < 0 {
        0
    } else if x > SCALE as i128 {
        SCALE
    } else {
        x as i64
    }
}

/// Division that truncates toward zero, as the machine division does; for a
/// nonnegative dividend it coincides with Euclidean division.
pub open spec fn div_tz(a: int, b: int) -> int {
    if a >= 0 {
        a / b
    } else {
        -((-a) / b)
    }
}

/// Scaling a machine word stays far within the wide intermediate range.
pub proof fn lemma_scaled_word_bounds(x: int)
    requires
        i64::MIN <= x <= i64::MAX,
    ensures
        -10_000_000_000_000_000_000_000 < x * (SCALE as int) < 10_000_000_000_000_000_000_000,
{
    assert(-10_000_000_000_000_000_000_000 < x * (SCALE as int) < 10_000_000_000_000_000_000_000)
        by (nonlinear_arith)
        requires
            i64::MIN <= x <= i64::MAX,
            SCALE == 1000,
    ;
}

/// Truncating division on wide intermediates.
pub fn div_tz_exec(a: i128, b: i128) -> (r: i128)
    requires
        b > 0,
        a > i128::MIN,
    ensures
        r == div_tz(a as int, b as int),
        a >= 0 ==> 0 <= r <= a,
        a < 0 ==> a <= r <= 0,
{
    if a >= 0 {
        proof {
            vstd::arithmetic::div_mod::lemma_div_pos_is_pos(a as int, b as int);
            vstd::arithmetic::div_mod::lemma_div_nonincreasing(a as int, b as int);
        }
        a / b
    } else {
        let neg = -a;
        proof {
            vstd::arithmetic::div_mod::lemma_div_pos_is_pos(neg as int, b as int);
            vstd::arithmetic::div_mod::lemma_div_nonincreasing(neg as int, b as int);
        }
        -(neg / b)
    }
}

} // verus!
