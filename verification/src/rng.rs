//! Explicit random-source handle for the engine.
//!
//! Per-draw randomness comes from rand's `StdRng`, threaded explicitly
//! through construction so that seeded runs are reproducible and no
//! process-wide generator state is shared. Nothing is assumed of a drawn
//! value beyond its range: the engine's contracts hold for every outcome.

use vstd::prelude::*;
use crate::fixed::UNIT;
use rand::Rng;
use rand::SeedableRng;

verus! {

#[verifier::external_type_specification]
#[verifier::external_body]
pub struct ExStdRng(rand::rngs::StdRng);

/// A handle to a stream of random draws.
pub struct RandomSource {
    rng: rand::rngs::StdRng,
}

impl RandomSource {
    /// Relies on rand::SeedableRng::seed_from_u64: a generator whose stream
    /// is a function of the seed alone, so equal seeds give equal streams.
    #[verifier::external_body]
    pub fn from_seed(seed: u64) -> RandomSource {
        RandomSource { rng: rand::rngs::StdRng::seed_from_u64(seed) }
    }

    /// Relies on rand::SeedableRng::from_entropy: a generator seeded from
    /// the operating system, for runs that need no reproducibility. It
    /// panics only if the operating system's entropy source fails, an
    /// environmental failure no condition on inputs can exclude.
    #[verifier::external_body]
    pub fn from_entropy() -> RandomSource {
        RandomSource { rng: rand::rngs::StdRng::from_entropy() }
    }

    /// Relies on rand::Rng::gen_range: a value uniform in `lo..hi`, which
    /// panics only on an empty range.
    #[verifier::external_body]
    pub fn next_in(&mut self, lo: i64, hi: i64) -> (r: i64)
        requires
            lo < hi,
        ensures
            lo <= r < hi,
    {
        self.rng.gen_range(lo..hi)
    }

    /// One scaled random factor in `[0, 1)` of the search space's unit.
    pub fn next_unit(&mut self) -> (r: i64)
        ensures
            0 <= r < UNIT,
    {
        self.next_in(0, UNIT)
    }

    /// A vector of `n` scaled random factors in `[0, 1)`.
    pub fn draw_units(&mut self, n: usize) -> (v: Vec<i64>)
        ensures
            v@.len() == n,
            forall|i: int| 0 <= i < n ==> 0 <= #[trigger] v@[i] < UNIT,
    {
        let mut v: Vec<i64> = Vec::new();
        let mut k: usize = 0;
        while k < n
            invariant
                k <= n,
                v@.len() == k,
                forall|i: int| 0 <= i < k ==> 0 <= #[trigger] v@[i] < UNIT,
            decreases n - k,
        {
            let d = self.next_unit();
            v.push(d);
            k = k + 1;
        }
        v
    }
}

} // verus!
