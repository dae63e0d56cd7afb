//! The iteration driver.
//!
//! An engine owns a configuration, an objective, a probe, a random
//! source and a freshly generated swarm. `execute` drives the run:
//! a begin notification, then for each iteration a velocity pass against
//! the global best as of the start of the iteration, a position pass,
//! and only then a refresh of the global best, with a generation
//! notification every `log_interval` iterations; finally an end
//! notification. `execute` runs at most once per engine.

use vstd::prelude::*;
use crate::errors::{ConfigurationError, ProbeDeliveryError, StateError};
use crate::fixed::UNIT;
use crate::objective::Objective;
use crate::probe::{Probe, ProbeEvent};
use crate::rng::RandomSource;
use crate::swarm::{
    best_updated, dims_of, positions_updated, swarm_consistent, swarm_wf, velocities_updated,
    Swarm, SwarmModel, VelocityInit,
};

verus! {

pub const DEFAULT_UPPER_BOUND: i64 = 10 * UNIT;

pub const DEFAULT_LOWER_BOUND: i64 = -10 * UNIT;

pub const DEFAULT_INERTIA: i64 = 500_000;

pub const DEFAULT_COGNITIVE: i64 = UNIT;

pub const DEFAULT_SOCIAL: i64 = 3 * UNIT;

/// The immutable configuration of one run.
#[derive(Clone, Copy, PartialEq, Eq, Structural, Debug)]
pub struct PSOAlgorithmCfg {
    /// Dimensionality of the optimized function's domain.
    pub dimensions: usize,
    /// Lower bound of the search area in every dimension, scaled.
    pub lower_bound: i64,
    /// Upper bound of the search area in every dimension, scaled.
    pub upper_bound: i64,
    /// Number of particles, fixed for the whole run.
    pub particle_count: usize,
    /// How much particles retain their speed, scaled by `UNIT`.
    pub inertia_weight: i64,
    /// Pull toward a particle's own best position, scaled by `UNIT`.
    pub cognitive_coefficient: i64,
    /// Pull toward the swarm's best position, scaled by `UNIT`.
    pub social_coefficient: i64,
    /// Number of iterations the run performs.
    pub iterations: usize,
    /// A generation notification goes out every `log_interval` iterations.
    pub log_interval: usize,
    /// How particle velocities are drawn at generation.
    pub velocity_init: VelocityInit,
}

impl PSOAlgorithmCfg {
    /// A configuration the engine can run: at least one particle and one
    /// dimension, a nonempty search interval, and a nonzero notification
    /// interval.
    pub open spec fn valid(self) -> bool {
        &&& self.particle_count >= 1
        &&& self.dimensions >= 1
        &&& self.lower_bound < self.upper_bound
        &&& self.log_interval >= 1
    }
}

/// The reference default configuration.
pub open spec fn default_cfg() -> PSOAlgorithmCfg {
    PSOAlgorithmCfg {
        dimensions: 2,
        lower_bound: DEFAULT_LOWER_BOUND,
        upper_bound: DEFAULT_UPPER_BOUND,
        particle_count: 30,
        inertia_weight: DEFAULT_INERTIA,
        cognitive_coefficient: DEFAULT_COGNITIVE,
        social_coefficient: DEFAULT_SOCIAL,
        iterations: 500,
        log_interval: 10,
        velocity_init: VelocityInit::Uniform,
    }
}

impl Default for PSOAlgorithmCfg {
    fn default() -> (r: Self)
        ensures
            r == default_cfg(),
    {
        PSOAlgorithmCfg {
            dimensions: 2,
            lower_bound: DEFAULT_LOWER_BOUND,
            upper_bound: DEFAULT_UPPER_BOUND,
            particle_count: 30,
            inertia_weight: DEFAULT_INERTIA,
            cognitive_coefficient: DEFAULT_COGNITIVE,
            social_coefficient: DEFAULT_SOCIAL,
            iterations: 500,
            log_interval: 10,
            velocity_init: VelocityInit::Uniform,
        }
    }
}

/// The lifecycle of an engine.
#[derive(Clone, Copy, PartialEq, Eq, Structural, Debug)]
pub enum EngineStatus {
    /// Holds configuration and a freshly generated swarm.
    Created,
    /// `execute` is driving the iteration loop.
    Running,
    /// The run has finished; `execute` may not be called again.
    Completed,
}

/// One full iteration: a velocity pass with the given per-particle random
/// factors, a position pass, then a refresh of the global best.
pub open spec fn step_spec<O: Objective>(
    s: SwarmModel,
    objective: O,
    config: PSOAlgorithmCfg,
    r1s: Seq<i64>,
    r2s: Seq<i64>,
) -> SwarmModel {
    best_updated(
        positions_updated(
            velocities_updated(
                s,
                config.inertia_weight,
                config.cognitive_coefficient,
                config.social_coefficient,
                r1s,
                r2s,
            ),
            objective,
        ),
    )
}

/// The swarm after the first `n` iterations, driven by the per-iteration
/// random draws `ds`.
pub open spec fn run_to<O: Objective>(
    s: SwarmModel,
    objective: O,
    config: PSOAlgorithmCfg,
    ds: Seq<(Seq<i64>, Seq<i64>)>,
    n: nat,
) -> SwarmModel
    decreases n,
{
    if n == 0 {
        s
    } else {
        step_spec(
            run_to(s, objective, config, ds, (n - 1) as nat),
            objective,
            config,
            ds[n - 1].0,
            ds[n - 1].1,
        )
    }
}

/// Random factors for one velocity pass: one draw per particle, each in
/// `[0, 1)` of a unit.
pub open spec fn unit_draws(v: Seq<i64>, count: nat) -> bool {
    &&& v.len() == count
    &&& forall|i: int| 0 <= i < v.len() ==> 0 <= #[trigger] v[i] < UNIT
}

/// A full run's random draws: one pair of per-particle factor vectors for
/// each of the `n` iterations.
pub open spec fn draws_ok(ds: Seq<(Seq<i64>, Seq<i64>)>, count: nat, n: nat) -> bool {
    &&& ds.len() == n
    &&& forall|k: int|
        0 <= k < ds.len() ==> unit_draws((#[trigger] ds[k]).0, count) && unit_draws(ds[k].1, count)
}

/// The generation notifications that go out during the first `n`
/// iterations: one after every `log_interval`-th iteration, carrying the
/// iteration number and the swarm as it stood after that iteration.
pub open spec fn gen_events<O: Objective>(
    s: SwarmModel,
    objective: O,
    config: PSOAlgorithmCfg,
    ds: Seq<(Seq<i64>, Seq<i64>)>,
    n: nat,
) -> Seq<ProbeEvent>
    decreases n,
{
    if n == 0 {
        Seq::empty()
    } else {
        gen_events(s, objective, config, ds, (n - 1) as nat) + (
        if n as int % (config.log_interval as int) == 0 {
            seq![
                ProbeEvent::Generation {
                    iteration: n as int,
                    swarm: run_to(s, objective, config, ds, n),
                },
            ]
        } else {
            Seq::empty()
        })
    }
}

/// Everything a full run delivers to its probe, in order: the begin
/// event, the generation notifications, and the end event.
pub open spec fn run_trace<O: Objective>(
    s: SwarmModel,
    objective: O,
    config: PSOAlgorithmCfg,
    ds: Seq<(Seq<i64>, Seq<i64>)>,
    n: nat,
) -> Seq<ProbeEvent> {
    seq![ProbeEvent::Begin { swarm: s }] + gen_events(s, objective, config, ds, n) + seq![
        ProbeEvent::End { swarm: run_to(s, objective, config, ds, n) },
    ]
}

/// The first `n` iterations read only the first `n` draws: two draw
/// sequences that agree there drive the run, and its notifications, to
/// the same states.
pub proof fn lemma_run_agrees<O: Objective>(
    s: SwarmModel,
    objective: O,
    config: PSOAlgorithmCfg,
    ds1: Seq<(Seq<i64>, Seq<i64>)>,
    ds2: Seq<(Seq<i64>, Seq<i64>)>,
    n: nat,
)
    requires
        forall|k: int| 0 <= k < n ==> ds1[k] == ds2[k],
    ensures
        run_to(s, objective, config, ds1, n) == run_to(s, objective, config, ds2, n),
        gen_events(s, objective, config, ds1, n) == gen_events(s, objective, config, ds2, n),
    decreases n,
{
    if n > 0 {
        lemma_run_agrees(s, objective, config, ds1, ds2, (n - 1) as nat);
    }
}

/// A velocity pass leaves every recorded best, and so the swarm's
/// fitness bookkeeping, untouched.
pub proof fn lemma_velocities_consistent<O: Objective>(
    s: SwarmModel,
    objective: O,
    inertia: i64,
    cognitive: i64,
    social: i64,
    r1s: Seq<i64>,
    r2s: Seq<i64>,
)
    requires
        swarm_consistent(s, objective),
    ensures
        swarm_consistent(velocities_updated(s, inertia, cognitive, social, r1s, r2s), objective),
{
    let t = velocities_updated(s, inertia, cognitive, social, r1s, r2s);
    assert forall|i: int| 0 <= i < t.particles.len() implies crate::particle::particle_consistent(
        #[trigger] t.particles[i],
        objective,
    ) by {
        assert(t.particles[i].best_position == s.particles[i].best_position);
        assert(t.particles[i].best_fitness == s.particles[i].best_fitness);
    };
}

/// A position pass records, for every particle, an actual evaluation of
/// the objective as its personal best.
pub proof fn lemma_positions_consistent<O: Objective>(s: SwarmModel, objective: O)
    requires
        swarm_consistent(s, objective),
    ensures
        swarm_consistent(positions_updated(s, objective), objective),
{
    let t = positions_updated(s, objective);
    assert forall|i: int| 0 <= i < t.particles.len() implies crate::particle::particle_consistent(
        #[trigger] t.particles[i],
        objective,
    ) by {
        assert(crate::particle::particle_consistent(s.particles[i], objective));
    };
}

/// The engine: configuration, objective, probe, random source and swarm,
/// driven through `Created`, `Running` and `Completed`.
pub struct PSOAlgorithm<O: Objective, P: Probe> {
    pub config: PSOAlgorithmCfg,
    pub objective: O,
    pub probe: P,
    pub rng: RandomSource,
    pub swarm: Swarm,
    pub status: EngineStatus,
    /// Delivery errors the probe reported, in the order they arose. They
    /// never abort the run.
    pub probe_errors: Vec<ProbeDeliveryError>,
}

impl<O: Objective, P: Probe> PSOAlgorithm<O, P> {
    /// Well-formedness: the configuration is valid and the swarm matches
    /// it, with every recorded fitness an actual evaluation of the
    /// objective. Established by `new`, preserved by `execute`.
    pub open spec fn wf(self) -> bool {
        &&& self.config.valid()
        &&& self.swarm@.particles.len() == self.config.particle_count
        &&& dims_of(self.swarm@) == self.config.dimensions
        &&& swarm_wf(self.swarm@)
        &&& swarm_consistent(self.swarm@, self.objective)
    }

    /// Build an engine with a freshly generated swarm. Fails with a
    /// `ConfigurationError`, creating no swarm, exactly when the
    /// configuration is invalid; the probe receives nothing yet.
    #[verifier::rlimit(50)]
    pub fn new(config: PSOAlgorithmCfg, objective: O, probe: P, rng: RandomSource) -> (r: Result<
        PSOAlgorithm<O, P>,
        ConfigurationError,
    >)
        ensures
            r is Ok <==> config.valid(),
            r matches Err(e) ==> {
                &&& (e == ConfigurationError::ZeroParticleCount <==> config.particle_count == 0)
                &&& (e == ConfigurationError::ZeroDimensions <==> config.particle_count >= 1
                    && config.dimensions == 0)
                &&& (e == ConfigurationError::InvertedBounds <==> config.particle_count >= 1
                    && config.dimensions >= 1 && config.lower_bound >= config.upper_bound)
                &&& (e == ConfigurationError::ZeroNotificationInterval <==> config.particle_count
                    >= 1 && config.dimensions >= 1 && config.lower_bound < config.upper_bound
                    && config.log_interval == 0)
            },
            r matches Ok(engine) ==> engine.wf() && engine.config == config
                && engine.objective == objective && engine.probe == probe && engine.status
                == EngineStatus::Created && engine.probe_errors@ == Seq::<
                ProbeDeliveryError,
            >::empty(),
            r matches Ok(engine) ==> forall|i: int|
                0 <= i < engine.swarm@.particles.len() ==> engine.swarm@.global_best_fitness
                    <= (#[trigger] engine.swarm@.particles[i]).best_fitness,
            r matches Ok(engine) ==> crate::swarm::global_best_attained(engine.swarm@),
            r matches Ok(engine) ==> forall|i: int|
                0 <= i < engine.swarm@.particles.len()
                    ==> (#[trigger] engine.swarm@.particles[i]).best_position
                        == engine.swarm@.particles[i].position
                        && engine.swarm@.particles[i].best_fitness == objective.eval_spec(
                        engine.swarm@.particles[i].position,
                    ),
            r matches Ok(engine) ==> forall|i: int, d: int|
                0 <= i < engine.swarm@.particles.len() && 0 <= d < config.dimensions
                    ==> config.lower_bound <= #[trigger] engine.swarm@.particles[i].position[d]
                        < config.upper_bound,
    {
        let mut rng = rng;
        let swarm = match Swarm::generate(
            config.particle_count,
            config.dimensions,
            config.lower_bound,
            config.upper_bound,
            &objective,
            &mut rng,
            config.velocity_init,
        ) {
            Ok(swarm) => swarm,
            Err(e) => {
                return Err(e);
            },
        };
        if config.log_interval == 0 {
            return Err(ConfigurationError::ZeroNotificationInterval);
        }
        proof {
            let ps = swarm@.particles;
            crate::swarm::lemma_refreshed_props(ps, ps[0].best_fitness, ps[0].best_position);
            let scanned = crate::swarm::refreshed_best(ps, ps[0].best_fitness, ps[0].best_position);
            assert(swarm@.global_best_fitness == scanned.0);
            assert(swarm@.global_best_position == scanned.1);
            if scanned == (ps[0].best_fitness, ps[0].best_position) {
                assert(0 <= 0 < ps.len() && swarm@.global_best_fitness == ps[0].best_fitness
                    && swarm@.global_best_position == ps[0].best_position);
            }
            assert(crate::swarm::global_best_attained(swarm@));
        }
        Ok(
            PSOAlgorithm {
                config,
                objective,
                probe,
                rng,
                swarm,
                status: EngineStatus::Created,
                probe_errors: Vec::new(),
            },
        )
    }

    /// Drive the whole run once.
    ///
    /// On the first call: the probe receives the begin event, then one
    /// generation event after every `log_interval`-th iteration, then the
    /// end event; the swarm ends in the state that some sequence of
    /// in-range random draws drives it to under the update rule; and the
    /// global best fitness never ends worse than it started. Probe
    /// delivery errors are collected, never fatal. A second call fails
    /// with a state error and changes nothing.
    pub fn execute(&mut self) -> (r: Result<(), StateError>)
        requires
            old(self).wf(),
        ensures
            final(self).wf(),
            final(self).config == old(self).config,
            final(self).objective == old(self).objective,
            old(self).status != EngineStatus::Created ==> r == Err::<(), StateError>(
                StateError::AlreadyExecuted,
            ) && *final(self) == *old(self),
            old(self).status == EngineStatus::Created ==> {
                &&& r is Ok
                &&& final(self).status == EngineStatus::Completed
                &&& final(self).swarm@.global_best_fitness
                    <= old(self).swarm@.global_best_fitness
                &&& old(self).probe_errors@.is_prefix_of(final(self).probe_errors@)
                &&& exists|ds: Seq<(Seq<i64>, Seq<i64>)>|
                    {
                        &&& #[trigger] draws_ok(
                            ds,
                            old(self).config.particle_count as nat,
                            old(self).config.iterations as nat,
                        )
                        &&& final(self).swarm@ == run_to(
                            old(self).swarm@,
                            old(self).objective,
                            old(self).config,
                            ds,
                            old(self).config.iterations as nat,
                        )
                        &&& final(self).probe.log() == old(self).probe.log() + run_trace(
                            old(self).swarm@,
                            old(self).objective,
                            old(self).config,
                            ds,
                            old(self).config.iterations as nat,
                        )
                    }
            },
    {
        match self.status {
            EngineStatus::Created => {},
            _ => {
                return Err(StateError::AlreadyExecuted);
            },
        }
        self.status = EngineStatus::Running;
        let ghost s0 = self.swarm@;
        let ghost log0 = self.probe.log();
        let ghost cfg = self.config;
        let ghost objective0 = self.objective;
        let ghost mut ds: Seq<(Seq<i64>, Seq<i64>)> = Seq::empty();
        match self.probe.on_begin(&self.swarm) {
            Ok(()) => {},
            Err(e) => self.probe_errors.push(e),
        }
        let iterations = self.config.iterations;
        let interval = self.config.log_interval;
        let mut iteration: usize = 0;
        while iteration < iterations
            invariant
                self.wf(),
                self.config == cfg,
                self.objective == objective0,
                self.status == EngineStatus::Running,
                iterations == cfg.iterations,
                interval == cfg.log_interval,
                interval >= 1,
                iteration <= iterations,
                draws_ok(ds, cfg.particle_count as nat, iteration as nat),
                self.swarm@ == run_to(s0, objective0, cfg, ds, iteration as nat),
                self.probe.log() == log0 + seq![ProbeEvent::Begin { swarm: s0 }] + gen_events(
                    s0,
                    objective0,
                    cfg,
                    ds,
                    iteration as nat,
                ),
                old(self).probe_errors@.is_prefix_of(self.probe_errors@),
            decreases iterations - iteration,
        {
            let count = self.config.particle_count;
            let r1s = self.rng.draw_units(count);
            let r2s = self.rng.draw_units(count);
            let ghost before = self.swarm@;
            self.swarm.update_velocities(
                self.config.inertia_weight,
                self.config.cognitive_coefficient,
                self.config.social_coefficient,
                &r1s,
                &r2s,
            );
            self.swarm.update_positions(&self.objective);
            self.swarm.update_best_position(&self.objective);
            proof {
                lemma_velocities_consistent(
                    before,
                    objective0,
                    cfg.inertia_weight,
                    cfg.cognitive_coefficient,
                    cfg.social_coefficient,
                    r1s@,
                    r2s@,
                );
                lemma_positions_consistent(
                    velocities_updated(
                        before,
                        cfg.inertia_weight,
                        cfg.cognitive_coefficient,
                        cfg.social_coefficient,
                        r1s@,
                        r2s@,
                    ),
                    objective0,
                );
                let ds2 = ds.push((r1s@, r2s@));
                lemma_run_agrees(s0, objective0, cfg, ds, ds2, iteration as nat);
                assert(self.swarm@ == step_spec(
                    run_to(s0, objective0, cfg, ds2, iteration as nat),
                    objective0,
                    cfg,
                    r1s@,
                    r2s@,
                ));
                assert(self.swarm@ == run_to(s0, objective0, cfg, ds2, (iteration + 1) as nat));
                ds = ds2;
            }
            if (iteration + 1) % interval == 0 {
                match self.probe.on_new_generation(&self.swarm, iteration + 1) {
                    Ok(()) => {},
                    Err(e) => self.probe_errors.push(e),
                }
                proof {
                    assert(self.probe.log() =~= log0 + seq![ProbeEvent::Begin { swarm: s0 }]
                        + gen_events(s0, objective0, cfg, ds, (iteration + 1) as nat));
                }
            } else {
                proof {
                    assert(gen_events(s0, objective0, cfg, ds, (iteration + 1) as nat)
                        =~= gen_events(s0, objective0, cfg, ds, iteration as nat));
                }
            }
            iteration = iteration + 1;
        }
        match self.probe.on_end(&self.swarm) {
            Ok(()) => {},
            Err(e) => self.probe_errors.push(e),
        }
        self.status = EngineStatus::Completed;
        proof {
            assert(self.probe.log() =~= log0 + run_trace(
                s0,
                objective0,
                cfg,
                ds,
                iterations as nat,
            ));
            crate::laws::lemma_run_monotone(s0, objective0, cfg, ds, iterations as nat);
        }
        Ok(())
    }
}

} // verus!
