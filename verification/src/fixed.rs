//! Fixed-point scalar arithmetic for the search space.
//!
//! Every coordinate, velocity component and fitness value is an `i64`
//! holding a real number scaled by `UNIT`. All operations saturate at the
//! `i64` range, so they are total: a swarm whose particles drift arbitrarily
//! far never makes the engine fail.

use vstd::prelude::*;

verus! {

/// Number of fixed-point units per whole unit of the search space.
pub const UNIT: i64 = 1_000_000;

/// Clamp a mathematical integer into the `i64` range.
pub open spec fn sat_i64(x: int) -> i64 {
    if x > i64::MAX {
        i64::MAX
    } else if x < i64::MIN {
        i64::MIN
    } else {
        x as i64
    }
}

/// Saturating fixed-point addition.
pub open spec fn spec_sat_add(a: i64, b: i64) -> i64 {
    sat_i64(a + b)
}

/// Saturating fixed-point subtraction.
pub open spec fn spec_sat_sub(a: i64, b: i64) -> i64 {
    sat_i64(a - b)
}

/// Division truncated toward zero, for a positive divisor.
pub open spec fn trunc_div(x: int, d: int) -> int {
    if x >= 0 {
        x / d
    } else {
        -((-x) / d)
    }
}

/// Saturating fixed-point multiplication: the product of two scaled values,
/// rescaled by `UNIT` with truncation toward zero.
pub open spec fn spec_fx_mul(a: i64, b: i64) -> i64 {
    sat_i64(trunc_div(a as int * b as int, UNIT as int))
}

pub fn sat_add(a: i64, b: i64) -> (r: i64)
    ensures
        r == spec_sat_add(a, b),
{
    match a.checked_add(b) {
        Some(s) => s,
        None => if b > 0 {
            i64::MAX
        } else {
            i64::MIN
        },
    }
}

pub fn sat_sub(a: i64, b: i64) -> (r: i64)
    ensures
        r == spec_sat_sub(a, b),
{
    match a.checked_sub(b) {
        Some(s) => s,
        None => if b < 0 {
            i64::MAX
        } else {
            i64::MIN
        },
    }
}

pub fn fx_mul(a: i64, b: i64) -> (r: i64)
    ensures
        r == spec_fx_mul(a, b),
{
    proof {
        assert(a as int * b as int <= i64::MIN as int * i64::MIN as int
            && a as int * b as int >= i64::MIN as int * i64::MAX as int) by (nonlinear_arith)
            requires
                i64::MIN <= a <= i64::MAX,
                i64::MIN <= b <= i64::MAX,
        ;
    }
    let p: i128 = (a as i128) * (b as i128);
    if p >= 0 {
        let q: u128 = (p as u128) / (UNIT as u128);
        proof {
            assert(q == (p as int) / (UNIT as int));
        }
        if q > i64::MAX as u128 {
            i64::MAX
        } else {
            q as i64
        }
    } else {
        let np: u128 = ((-p) as u128) / (UNIT as u128);
        proof {
            assert(np == (-(p as int)) / (UNIT as int));
        }
        if np > i64::MAX as u128 {
            i64::MIN
        } else {
            -(np as i64)
        }
    }
}

} // verus!
