//! The swarm: the full population of particles plus the best solution
//! found by any of them, and the population update algorithm.

use vstd::prelude::*;
use crate::errors::ConfigurationError;
use crate::fixed::{sat_sub, spec_sat_sub};
use crate::objective::Objective;
use crate::particle::{
    moved_position, particle_consistent, particle_wf, position_updated, updated_velocity, Particle,
    ParticleModel,
};
use crate::rng::RandomSource;

verus! {

/// How a particle's velocity is drawn at swarm generation.
#[derive(Clone, Copy, PartialEq, Eq, Structural, Debug)]
pub enum VelocityInit {
    /// Start at rest.
    Zero,
    /// Draw each component uniformly from `[-(upper - lower), upper - lower)`.
    Uniform,
}

/// The population, in a stable order that is also the notification and
/// display order, plus the best-known global position and fitness.
pub struct Swarm {
    pub particles: Vec<Particle>,
    pub global_best_position: Vec<i64>,
    pub global_best_fitness: i64,
}

/// The mathematical view of a swarm.
#[verifier::ext_equal]
pub struct SwarmModel {
    pub particles: Seq<ParticleModel>,
    pub global_best_position: Seq<i64>,
    pub global_best_fitness: i64,
}

impl View for Swarm {
    type V = SwarmModel;

    open spec fn view(&self) -> SwarmModel {
        SwarmModel {
            particles: Seq::new(self.particles@.len(), |i: int| self.particles@[i]@),
            global_best_position: self.global_best_position@,
            global_best_fitness: self.global_best_fitness,
        }
    }
}

/// The dimensionality of the swarm's search space.
pub open spec fn dims_of(s: SwarmModel) -> nat {
    s.global_best_position.len()
}

/// Dimensional consistency of the whole swarm.
pub open spec fn swarm_wf(s: SwarmModel) -> bool {
    &&& s.particles.len() >= 1
    &&& forall|i: int|
        0 <= i < s.particles.len() ==> particle_wf(#[trigger] s.particles[i], dims_of(s))
}

/// Every recorded fitness, personal or global, is an actual evaluation of
/// the objective at the recorded position.
pub open spec fn swarm_consistent<O: Objective>(s: SwarmModel, objective: O) -> bool {
    &&& forall|i: int|
        0 <= i < s.particles.len() ==> particle_consistent(#[trigger] s.particles[i], objective)
    &&& s.global_best_fitness == objective.eval_spec(s.global_best_position)
}

/// The swarm after one velocity pass: every particle's velocity is
/// recomputed against the global best as it stood at the start of the
/// pass, so the result does not depend on the order of the updates.
pub open spec fn velocities_updated(
    s: SwarmModel,
    inertia: i64,
    cognitive: i64,
    social: i64,
    r1s: Seq<i64>,
    r2s: Seq<i64>,
) -> SwarmModel {
    SwarmModel {
        particles: Seq::new(
            s.particles.len(),
            |i: int| ParticleModel {
                velocity: updated_velocity(
                    s.particles[i],
                    s.global_best_position,
                    inertia,
                    cognitive,
                    social,
                    r1s[i],
                    r2s[i],
                ),
                ..s.particles[i]
            },
        ),
        ..s
    }
}

/// The swarm after one position pass: every particle moves by its
/// velocity and re-evaluates the objective at the new position.
pub open spec fn positions_updated<O: Objective>(s: SwarmModel, objective: O) -> SwarmModel {
    SwarmModel {
        particles: Seq::new(
            s.particles.len(),
            |i: int| position_updated(
                s.particles[i],
                objective.eval_spec(
                    moved_position(s.particles[i].position, s.particles[i].velocity),
                ),
            ),
        ),
        ..s
    }
}

/// A scan of personal bests in particle order, starting from the pair
/// `(fitness, position)`: an entry replaces the accumulator exactly on
/// strict improvement, so the first particle in order wins ties.
pub open spec fn refreshed_best(
    particles: Seq<ParticleModel>,
    fitness: i64,
    position: Seq<i64>,
) -> (i64, Seq<i64>)
    decreases particles.len(),
{
    if particles.len() == 0 {
        (fitness, position)
    } else if particles[0].best_fitness < fitness {
        refreshed_best(particles.drop_first(), particles[0].best_fitness, particles[0].best_position)
    } else {
        refreshed_best(particles.drop_first(), fitness, position)
    }
}

/// The global best pair is attained by some particle's personal best.
pub open spec fn global_best_attained(s: SwarmModel) -> bool {
    exists|j: int|
        0 <= j < s.particles.len() && s.global_best_fitness == (#[trigger] s.particles[j]).best_fitness
            && s.global_best_position == s.particles[j].best_position
}

/// The swarm after its global best has been refreshed from the particles'
/// personal bests.
pub open spec fn best_updated(s: SwarmModel) -> SwarmModel {
    SwarmModel {
        particles: s.particles,
        global_best_fitness: refreshed_best(
            s.particles,
            s.global_best_fitness,
            s.global_best_position,
        ).0,
        global_best_position: refreshed_best(
            s.particles,
            s.global_best_fitness,
            s.global_best_position,
        ).1,
    }
}

/// The scan that refreshes the global best never worsens it, yields a
/// value at most every personal best, and returns either the starting
/// pair or a pair recorded by some particle.
pub proof fn lemma_refreshed_props(particles: Seq<ParticleModel>, fitness: i64, position: Seq<i64>)
    ensures
        refreshed_best(particles, fitness, position).0 <= fitness,
        forall|i: int|
            0 <= i < particles.len() ==> refreshed_best(particles, fitness, position).0
                <= #[trigger] particles[i].best_fitness,
        refreshed_best(particles, fitness, position) == (fitness, position) || exists|j: int|
            0 <= j < particles.len()
                && refreshed_best(particles, fitness, position).0 == #[trigger] particles[j].best_fitness
                && refreshed_best(particles, fitness, position).1 == particles[j].best_position,
    decreases particles.len(),
{
    if particles.len() > 0 {
        let rest = particles.drop_first();
        if particles[0].best_fitness < fitness {
            lemma_refreshed_props(rest, particles[0].best_fitness, particles[0].best_position);
            let r = refreshed_best(particles, fitness, position);
            assert forall|i: int| 0 <= i < particles.len() implies r.0
                <= #[trigger] particles[i].best_fitness by {
                if i > 0 {
                    assert(rest[i - 1] == particles[i]);
                }
            };
            if r == (particles[0].best_fitness, particles[0].best_position) {
                assert(0 <= 0 < particles.len() && r.0 == particles[0].best_fitness
                    && r.1 == particles[0].best_position);
            } else {
                let j = choose|j: int|
                    0 <= j < rest.len() && r.0 == #[trigger] rest[j].best_fitness
                        && r.1 == rest[j].best_position;
                assert(particles[j + 1] == rest[j]);
            }
        } else {
            lemma_refreshed_props(rest, fitness, position);
            let r = refreshed_best(particles, fitness, position);
            assert forall|i: int| 0 <= i < particles.len() implies r.0
                <= #[trigger] particles[i].best_fitness by {
                if i > 0 {
                    assert(rest[i - 1] == particles[i]);
                }
            };
            if r != (fitness, position) {
                let j = choose|j: int|
                    0 <= j < rest.len() && r.0 == #[trigger] rest[j].best_fitness
                        && r.1 == rest[j].best_position;
                assert(particles[j + 1] == rest[j]);
            }
        }
    }
}

/// After a refresh, the global best fitness is the extremum of the swarm:
/// never worse than before, at most every particle's personal best, and
/// either unchanged or attained by some particle.
pub proof fn lemma_global_best_extremal(s: SwarmModel)
    ensures
        best_updated(s).global_best_fitness <= s.global_best_fitness,
        forall|i: int|
            0 <= i < s.particles.len() ==> best_updated(s).global_best_fitness
                <= #[trigger] s.particles[i].best_fitness,
        best_updated(s).global_best_fitness == s.global_best_fitness || global_best_attained(
            best_updated(s),
        ),
{
    lemma_refreshed_props(s.particles, s.global_best_fitness, s.global_best_position);
    let r = refreshed_best(s.particles, s.global_best_fitness, s.global_best_position);
    let t = best_updated(s);
    if r != (s.global_best_fitness, s.global_best_position) {
        let j = choose|j: int|
            0 <= j < s.particles.len() && r.0 == #[trigger] s.particles[j].best_fitness
                && r.1 == s.particles[j].best_position;
        assert(0 <= j < t.particles.len() && t.global_best_fitness == t.particles[j].best_fitness
            && t.global_best_position == t.particles[j].best_position);
    }
}

impl Swarm {
    /// Build a swarm of `particle_count` particles of dimensionality
    /// `dimensions`, each position drawn uniformly from
    /// `[lower_bound, upper_bound)` per dimension and each velocity drawn
    /// per `velocity_init`, with every personal best initialized to the
    /// starting position and the global best to the best of those.
    ///
    /// Fails, creating no swarm, exactly on a configuration the search
    /// cannot mean anything for: no particles, no dimensions, or bounds
    /// that do not describe a nonempty interval.
    pub fn generate<O: Objective>(
        particle_count: usize,
        dimensions: usize,
        lower_bound: i64,
        upper_bound: i64,
        objective: &O,
        rng: &mut RandomSource,
        velocity_init: VelocityInit,
    ) -> (r: Result<Swarm, ConfigurationError>)
        ensures
            r matches Err(e) ==> {
                &&& (e == ConfigurationError::ZeroParticleCount <==> particle_count == 0)
                &&& (e == ConfigurationError::ZeroDimensions <==> particle_count >= 1
                    && dimensions == 0)
                &&& (e == ConfigurationError::InvertedBounds <==> particle_count >= 1
                    && dimensions >= 1 && lower_bound >= upper_bound)
            },
            r is Ok <==> particle_count >= 1 && dimensions >= 1 && lower_bound < upper_bound,
            r matches Ok(s) ==> {
                &&& s@.particles.len() == particle_count
                &&& dims_of(s@) == dimensions
                &&& swarm_wf(s@)
                &&& swarm_consistent(s@, *objective)
                &&& forall|i: int, d: int|
                    0 <= i < particle_count && 0 <= d < dimensions ==> lower_bound
                        <= #[trigger] s@.particles[i].position[d] < upper_bound
                &&& forall|i: int, d: int|
                    0 <= i < particle_count && 0 <= d < dimensions
                        ==> (velocity_init == VelocityInit::Zero
                            ==> #[trigger] s@.particles[i].velocity[d] == 0)
                            && (velocity_init == VelocityInit::Uniform
                                ==> -spec_sat_sub(upper_bound, lower_bound)
                                    <= s@.particles[i].velocity[d]
                                    < spec_sat_sub(upper_bound, lower_bound))
                &&& forall|i: int|
                    0 <= i < particle_count ==> (#[trigger] s@.particles[i]).best_position
                        == s@.particles[i].position && s@.particles[i].best_fitness
                        == objective.eval_spec(s@.particles[i].position)
                &&& s@ == best_updated(
                    SwarmModel {
                        particles: s@.particles,
                        global_best_position: s@.particles[0].best_position,
                        global_best_fitness: s@.particles[0].best_fitness,
                    },
                )
            },
    {
        if particle_count == 0 {
            return Err(ConfigurationError::ZeroParticleCount);
        }
        if dimensions == 0 {
            return Err(ConfigurationError::ZeroDimensions);
        }
        if lower_bound >= upper_bound {
            return Err(ConfigurationError::InvertedBounds);
        }
        let range = sat_sub(upper_bound, lower_bound);
        let mut particles: Vec<Particle> = Vec::new();
        let mut i: usize = 0;
        while i < particle_count
            invariant
                i <= particle_count,
                lower_bound < upper_bound,
                dimensions >= 1,
                range == spec_sat_sub(upper_bound, lower_bound),
                particles@.len() == i,
                forall|k: int|
                    0 <= k < i ==> particle_wf(#[trigger] particles@[k]@, dimensions as nat),
                forall|k: int|
                    0 <= k < i ==> particle_consistent(#[trigger] particles@[k]@, *objective),
                forall|k: int, d: int|
                    0 <= k < i && 0 <= d < dimensions ==> lower_bound
                        <= #[trigger] particles@[k]@.position[d] < upper_bound,
                forall|k: int, d: int|
                    0 <= k < i && 0 <= d < dimensions
                        ==> (velocity_init == VelocityInit::Zero
                            ==> #[trigger] particles@[k]@.velocity[d] == 0)
                            && (velocity_init == VelocityInit::Uniform
                                ==> -spec_sat_sub(upper_bound, lower_bound)
                                    <= particles@[k]@.velocity[d]
                                    < spec_sat_sub(upper_bound, lower_bound)),
                forall|k: int|
                    0 <= k < i ==> (#[trigger] particles@[k]@).best_position
                        == particles@[k]@.position && particles@[k]@.best_fitness
                        == objective.eval_spec(particles@[k]@.position),
            decreases particle_count - i,
        {
            let mut position: Vec<i64> = Vec::new();
            let mut velocity: Vec<i64> = Vec::new();
            let mut d: usize = 0;
            while d < dimensions
                invariant
                    d <= dimensions,
                    lower_bound < upper_bound,
                    range == spec_sat_sub(upper_bound, lower_bound),
                    position@.len() == d,
                    velocity@.len() == d,
                    forall|t: int|
                        0 <= t < d ==> lower_bound <= #[trigger] position@[t] < upper_bound,
                    forall|t: int|
                        0 <= t < d ==> (velocity_init == VelocityInit::Zero
                            ==> #[trigger] velocity@[t] == 0)
                            && (velocity_init == VelocityInit::Uniform
                                ==> -spec_sat_sub(upper_bound, lower_bound) <= velocity@[t]
                                    < spec_sat_sub(upper_bound, lower_bound)),
                decreases dimensions - d,
            {
                position.push(rng.next_in(lower_bound, upper_bound));
                match velocity_init {
                    VelocityInit::Zero => velocity.push(0),
                    VelocityInit::Uniform => velocity.push(rng.next_in(-range, range)),
                }
                d = d + 1;
            }
            let best_fitness = objective.eval(&position);
            let best_position = position.clone();
            particles.push(Particle { position, velocity, best_position, best_fitness });
            i = i + 1;
        }
        let global_best_position = particles[0].best_position.clone();
        let global_best_fitness = particles[0].best_fitness;
        let mut swarm = Swarm { particles, global_best_position, global_best_fitness };
        swarm.update_best_position(objective);
        Ok(swarm)
    }

    /// One velocity pass over the whole swarm, per the update rule, with
    /// one pair of per-particle random factors in `[0, 1)` of a unit. All
    /// particles read the global best as of the start of the pass.
    pub fn update_velocities(
        &mut self,
        inertia: i64,
        cognitive: i64,
        social: i64,
        r1s: &Vec<i64>,
        r2s: &Vec<i64>,
    )
        requires
            swarm_wf(old(self)@),
            r1s@.len() == old(self)@.particles.len(),
            r2s@.len() == old(self)@.particles.len(),
        ensures
            final(self)@ == velocities_updated(old(self)@, inertia, cognitive, social, r1s@, r2s@),
            swarm_wf(final(self)@),
    {
        let ghost target = velocities_updated(self@, inertia, cognitive, social, r1s@, r2s@);
        let global = self.global_best_position.clone();
        let count = self.particles.len();
        let mut i: usize = 0;
        while i < count
            invariant
                count == self@.particles.len(),
                i <= count,
                global@ == old(self)@.global_best_position,
                self@.global_best_position == old(self)@.global_best_position,
                self@.global_best_fitness == old(self)@.global_best_fitness,
                r1s@.len() == count,
                r2s@.len() == count,
                target == velocities_updated(old(self)@, inertia, cognitive, social, r1s@, r2s@),
                target.particles.len() == count,
                forall|k: int| i <= k < count ==> self@.particles[k] == old(self)@.particles[k],
                forall|k: int| 0 <= k < i ==> self@.particles[k] == target.particles[k],
                forall|k: int|
                    0 <= k < count ==> particle_wf(#[trigger] old(self)@.particles[k], dims_of(old(self)@)),
            decreases count - i,
        {
            proof {
                assert(particle_wf(old(self)@.particles[i as int], dims_of(old(self)@)));
                assert(self@.particles[i as int] == old(self)@.particles[i as int]);
            }
            let particle = &mut self.particles[i];
            particle.update_velocity(&global, inertia, cognitive, social, r1s[i], r2s[i]);
            proof {
                assert(self@.particles[i as int] =~= target.particles[i as int]);
            }
            i = i + 1;
        }
        proof {
            assert(self@ =~= target);
        }
    }

    /// One position pass over the whole swarm: every particle moves by its
    /// velocity, re-evaluates the objective, and overwrites its personal
    /// best exactly on strict improvement.
    pub fn update_positions<O: Objective>(&mut self, objective: &O)
        requires
            swarm_wf(old(self)@),
        ensures
            final(self)@ == positions_updated(old(self)@, *objective),
            swarm_wf(final(self)@),
    {
        let ghost target = positions_updated(self@, *objective);
        let count = self.particles.len();
        let mut i: usize = 0;
        while i < count
            invariant
                count == self@.particles.len(),
                i <= count,
                self@.global_best_position == old(self)@.global_best_position,
                self@.global_best_fitness == old(self)@.global_best_fitness,
                target == positions_updated(old(self)@, *objective),
                target.particles.len() == count,
                forall|k: int| i <= k < count ==> self@.particles[k] == old(self)@.particles[k],
                forall|k: int| 0 <= k < i ==> self@.particles[k] == target.particles[k],
                forall|k: int|
                    0 <= k < count ==> particle_wf(#[trigger] old(self)@.particles[k], dims_of(old(self)@)),
            decreases count - i,
        {
            proof {
                assert(particle_wf(old(self)@.particles[i as int], dims_of(old(self)@)));
                assert(self@.particles[i as int] == old(self)@.particles[i as int]);
            }
            let particle = &mut self.particles[i];
            particle.update_position(objective);
            proof {
                assert(self@.particles[i as int] =~= target.particles[i as int]);
            }
            i = i + 1;
        }
        proof {
            assert(self@ =~= target);
        }
    }

    /// Rescan all particles' personal bests and adopt the best of them if
    /// it strictly improves on the current global best; the first particle
    /// in iteration order wins ties. Never worsens the global best, and
    /// keeps every recorded fitness an actual evaluation of the objective.
    pub fn update_best_position<O: Objective>(&mut self, objective: &O)
        ensures
            final(self)@ == best_updated(old(self)@),
            final(self)@.global_best_fitness <= old(self)@.global_best_fitness,
            swarm_consistent(old(self)@, *objective) ==> swarm_consistent(final(self)@, *objective),
            swarm_wf(old(self)@) ==> swarm_wf(final(self)@) && dims_of(final(self)@) == dims_of(
                old(self)@,
            ),
    {
        let ghost s0 = self@;
        let count = self.particles.len();
        let mut best_fitness = self.global_best_fitness;
        let mut best_index: Option<usize> = None;
        let mut i: usize = 0;
        proof {
            assert(s0.particles.skip(0) =~= s0.particles);
        }
        while i < count
            invariant
                count == self@.particles.len(),
                self == old(self),
                i <= count,
                best_index matches Some(j) ==> 0 <= j < i && best_fitness
                    == s0.particles[j as int].best_fitness,
                best_index is None ==> best_fitness == s0.global_best_fitness,
                s0 == self@,
                refreshed_best(
                    s0.particles.skip(i as int),
                    best_fitness,
                    match best_index {
                        Some(j) => s0.particles[j as int].best_position,
                        None => s0.global_best_position,
                    },
                ) == refreshed_best(s0.particles, s0.global_best_fitness, s0.global_best_position),
            decreases count - i,
        {
            proof {
                assert(s0.particles.skip(i as int).drop_first() =~= s0.particles.skip(i + 1));
                assert(s0.particles.skip(i as int)[0] == s0.particles[i as int]);
            }
            if self.particles[i].best_fitness < best_fitness {
                best_fitness = self.particles[i].best_fitness;
                best_index = Some(i);
            }
            i = i + 1;
        }
        proof {
            assert(s0.particles.skip(count as int) =~= Seq::<ParticleModel>::empty());
            lemma_refreshed_props(s0.particles, s0.global_best_fitness, s0.global_best_position);
        }
        match best_index {
            Some(j) => {
                self.global_best_fitness = best_fitness;
                self.global_best_position = self.particles[j].best_position.clone();
            },
            None => {},
        }
        proof {
            assert(self@ =~= best_updated(s0));
        }
    }
}

} // verus!
