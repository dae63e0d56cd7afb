//! The objective-function boundary.
//!
//! The engine optimizes an externally supplied pure function from a point
//! of the search space to a scalar fitness. An implementation carries its
//! own mathematical description (`eval_spec`), and its executable
//! evaluation must return exactly that value, so the engine's contracts
//! can speak of fitness values precisely.

use vstd::prelude::*;
use crate::fixed::{fx_mul, sat_add, sat_sub, spec_fx_mul, spec_sat_add, spec_sat_sub, UNIT};

verus! {

/// A pure objective function over fixed-point points, to be minimized.
pub trait Objective: Sized {
    /// The mathematical value of this objective at a point.
    spec fn eval_spec(&self, point: Seq<i64>) -> i64;

    /// Evaluate the objective at a point.
    fn eval(&self, point: &Vec<i64>) -> (r: i64)
        ensures
            r == self.eval_spec(point@),
    ;
}

/// Sum of squares of the coordinates: a unimodal convex objective whose
/// minimum value 0 is taken exactly at the origin.
pub struct SumOfSquares;

/// The saturating fold that defines `SumOfSquares`.
pub open spec fn sum_of_squares_spec(point: Seq<i64>) -> i64
    decreases point.len(),
{
    if point.len() == 0 {
        0
    } else {
        spec_sat_add(sum_of_squares_spec(point.drop_last()), spec_fx_mul(point.last(), point.last()))
    }
}

impl Objective for SumOfSquares {
    open spec fn eval_spec(&self, point: Seq<i64>) -> i64 {
        sum_of_squares_spec(point)
    }

    fn eval(&self, point: &Vec<i64>) -> (r: i64)
        ensures
            r == self.eval_spec(point@),
    {
        let mut acc: i64 = 0;
        let mut i: usize = 0;
        while i < point.len()
            invariant
                i <= point@.len(),
                acc == sum_of_squares_spec(point@.take(i as int)),
            decreases point@.len() - i,
        {
            let x = point[i];
            acc = sat_add(acc, fx_mul(x, x));
            proof {
                assert(point@.take(i + 1 as int).drop_last() =~= point@.take(i as int));
                assert(point@.take(i + 1 as int).last() == point@[i as int]);
            }
            i = i + 1;
        }
        proof {
            assert(point@.take(point@.len() as int) =~= point@);
        }
        acc
    }
}

/// The valley-shaped benchmark objective of the demonstration run: a sum,
/// over adjacent coordinate pairs, of `100 * (next - curr^2)^2 + (1 - curr)^2`
/// in fixed-point arithmetic.
pub struct Rosenbrock;

pub const HUNDRED_UNITS: i64 = 100 * UNIT;

/// One term of `Rosenbrock`, for the pair at positions `i` and `i + 1`.
pub open spec fn rosenbrock_term_spec(curr: i64, next: i64) -> i64 {
    let a = spec_sat_sub(next, spec_fx_mul(curr, curr));
    let b = spec_sat_sub(UNIT, curr);
    spec_sat_add(
        spec_fx_mul(HUNDRED_UNITS, spec_fx_mul(a, a)),
        spec_fx_mul(b, b),
    )
}

/// The saturating fold that defines `Rosenbrock` over the first `n + 1`
/// coordinates.
pub open spec fn rosenbrock_spec(point: Seq<i64>, n: nat) -> i64
    decreases n,
{
    if n == 0 || point.len() < 2 {
        0
    } else {
        spec_sat_add(
            rosenbrock_spec(point, (n - 1) as nat),
            rosenbrock_term_spec(point[n - 1], point[n as int]),
        )
    }
}

impl Objective for Rosenbrock {
    open spec fn eval_spec(&self, point: Seq<i64>) -> i64 {
        if point.len() < 2 {
            0
        } else {
            rosenbrock_spec(point, (point.len() - 1) as nat)
        }
    }

    fn eval(&self, point: &Vec<i64>) -> (r: i64)
        ensures
            r == self.eval_spec(point@),
    {
        if point.len() < 2 {
            return 0;
        }
        let mut acc: i64 = 0;
        let mut i: usize = 0;
        while i < point.len() - 1
            invariant
                point@.len() >= 2,
                i <= point@.len() - 1,
                acc == rosenbrock_spec(point@, i as nat),
            decreases point@.len() - i,
        {
            let curr = point[i];
            let next = point[i + 1];
            let a = sat_sub(next, fx_mul(curr, curr));
            let b = sat_sub(UNIT, curr);
            let term = sat_add(fx_mul(HUNDRED_UNITS, fx_mul(a, a)), fx_mul(b, b));
            acc = sat_add(acc, term);
            i = i + 1;
        }
        acc
    }
}

} // verus!
