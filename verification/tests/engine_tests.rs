use swarm_engine::csv_probe::{BoundedProbe, CsvProbe, GenerationRecord};
use swarm_engine::demo::{pso_demo, AnyProbe};
use swarm_engine::engine::{EngineStatus, PSOAlgorithm, PSOAlgorithmCfg};
use swarm_engine::errors::{ConfigurationError, StateError};
use swarm_engine::fixed::UNIT;
use swarm_engine::multi_probe::MultiProbe;
use swarm_engine::objective::{Objective, SumOfSquares};
use swarm_engine::rng::RandomSource;
use swarm_engine::swarm::{Swarm, VelocityInit};

fn small_cfg(particle_count: usize, iterations: usize, log_interval: usize) -> PSOAlgorithmCfg {
    let mut cfg = PSOAlgorithmCfg::default();
    cfg.particle_count = particle_count;
    cfg.iterations = iterations;
    cfg.log_interval = log_interval;
    cfg
}

#[test]
fn inverted_bounds_rejected() {
    let mut cfg = PSOAlgorithmCfg::default();
    cfg.lower_bound = 5 * UNIT;
    cfg.upper_bound = -5 * UNIT;
    let outcome = PSOAlgorithm::new(cfg, SumOfSquares, CsvProbe::new(), RandomSource::from_seed(1));
    match outcome {
        Err(e) => assert_eq!(e, ConfigurationError::InvertedBounds),
        Ok(_) => panic!("an inverted search interval must be rejected"),
    }
}

#[test]
fn zero_particles_rejected() {
    let cfg = small_cfg(0, 10, 1);
    match PSOAlgorithm::new(cfg, SumOfSquares, CsvProbe::new(), RandomSource::from_seed(1)) {
        Err(e) => assert_eq!(e, ConfigurationError::ZeroParticleCount),
        Ok(_) => panic!("an empty swarm must be rejected"),
    }
}

#[test]
fn zero_dimensions_rejected() {
    let mut cfg = PSOAlgorithmCfg::default();
    cfg.dimensions = 0;
    match PSOAlgorithm::new(cfg, SumOfSquares, CsvProbe::new(), RandomSource::from_seed(1)) {
        Err(e) => assert_eq!(e, ConfigurationError::ZeroDimensions),
        Ok(_) => panic!("a zero-dimensional search space must be rejected"),
    }
}

#[test]
fn zero_interval_rejected() {
    let cfg = small_cfg(3, 10, 0);
    match PSOAlgorithm::new(cfg, SumOfSquares, CsvProbe::new(), RandomSource::from_seed(1)) {
        Err(e) => assert_eq!(e, ConfigurationError::ZeroNotificationInterval),
        Ok(_) => panic!("a zero notification interval must be rejected"),
    }
}

#[test]
fn generate_rejects_inverted_bounds_directly() {
    let mut rng = RandomSource::from_seed(7);
    let outcome = Swarm::generate(4, 2, 5 * UNIT, -5 * UNIT, &SumOfSquares, &mut rng, VelocityInit::Uniform);
    assert!(outcome.is_err());
}

#[test]
fn generate_positions_within_bounds() {
    let mut rng = RandomSource::from_seed(11);
    let swarm = Swarm::generate(8, 3, -2 * UNIT, 2 * UNIT, &SumOfSquares, &mut rng, VelocityInit::Uniform)
        .expect("valid configuration");
    assert_eq!(swarm.particles.len(), 8);
    for p in swarm.particles.iter() {
        assert_eq!(p.position.len(), 3);
        assert_eq!(p.velocity.len(), 3);
        assert_eq!(p.best_position.len(), 3);
        for d in 0..3 {
            assert!(-2 * UNIT <= p.position[d] && p.position[d] < 2 * UNIT);
        }
        assert_eq!(p.best_position, p.position);
        assert_eq!(p.best_fitness, SumOfSquares.eval(&p.position));
    }
}

#[test]
fn generate_zero_velocity_option() {
    let mut rng = RandomSource::from_seed(13);
    let swarm = Swarm::generate(5, 2, -UNIT, UNIT, &SumOfSquares, &mut rng, VelocityInit::Zero)
        .expect("valid configuration");
    for p in swarm.particles.iter() {
        for d in 0..2 {
            assert_eq!(p.velocity[d], 0);
        }
    }
}

#[test]
fn single_particle_single_iteration_best() {
    let mut cfg = small_cfg(1, 1, 1);
    cfg.dimensions = 2;
    let probe = CsvProbe::new();
    let mut engine = PSOAlgorithm::new(cfg, SumOfSquares, probe, RandomSource::from_seed(21))
        .expect("valid configuration");
    engine.execute().expect("first run");
    assert_eq!(engine.status, EngineStatus::Completed);
    let particle = &engine.swarm.particles[0];
    // With one particle, its personal best is the global best.
    assert_eq!(engine.swarm.global_best_fitness, particle.best_fitness);
    assert_eq!(engine.swarm.global_best_position, particle.best_position);
    // The recorded best is an actual evaluation of the objective.
    assert_eq!(particle.best_fitness, SumOfSquares.eval(&particle.best_position));
    // Exactly one position update happened: the personal best is the
    // better of the starting point and the moved point.
    let moved_fitness = SumOfSquares.eval(&particle.position);
    assert!(particle.best_fitness <= moved_fitness);
}

#[test]
fn execute_runs_only_once() {
    let cfg = small_cfg(3, 5, 1);
    let mut engine =
        PSOAlgorithm::new(cfg, SumOfSquares, CsvProbe::new(), RandomSource::from_seed(3))
            .expect("valid configuration");
    assert_eq!(engine.status, EngineStatus::Created);
    engine.execute().expect("first run");
    assert_eq!(engine.status, EngineStatus::Completed);
    let again = engine.execute();
    assert_eq!(again, Err(StateError::AlreadyExecuted));
    assert_eq!(engine.status, EngineStatus::Completed);
}

#[test]
fn global_best_monotone_over_generations() {
    let cfg = small_cfg(10, 60, 1);
    let mut engine =
        PSOAlgorithm::new(cfg, SumOfSquares, CsvProbe::new(), RandomSource::from_seed(5))
            .expect("valid configuration");
    let initial_best = engine.swarm.global_best_fitness;
    engine.execute().expect("run");
    let records: &Vec<GenerationRecord> = engine.probe.records();
    assert_eq!(records.len(), 60);
    let mut previous = initial_best;
    for (k, record) in records.iter().enumerate() {
        assert_eq!(record.iteration, k + 1);
        assert!(record.best_fitness <= previous);
        previous = record.best_fitness;
    }
    assert_eq!(engine.swarm.global_best_fitness, previous);
}

#[test]
fn dimensions_consistent_after_run() {
    let mut cfg = small_cfg(6, 30, 10);
    cfg.dimensions = 4;
    let mut engine =
        PSOAlgorithm::new(cfg, SumOfSquares, CsvProbe::new(), RandomSource::from_seed(9))
            .expect("valid configuration");
    engine.execute().expect("run");
    assert_eq!(engine.swarm.global_best_position.len(), 4);
    for p in engine.swarm.particles.iter() {
        assert_eq!(p.position.len(), 4);
        assert_eq!(p.velocity.len(), 4);
        assert_eq!(p.best_position.len(), 4);
    }
}

#[test]
fn seeded_runs_identical() {
    let run = |seed: u64| {
        let cfg = small_cfg(12, 40, 1);
        let mut engine =
            PSOAlgorithm::new(cfg, SumOfSquares, CsvProbe::new(), RandomSource::from_seed(seed))
                .expect("valid configuration");
        engine.execute().expect("run");
        (
            engine.swarm.global_best_fitness,
            engine.swarm.global_best_position.clone(),
            engine.probe.records().clone(),
        )
    };
    let first = run(42);
    let second = run(42);
    assert_eq!(first.0, second.0);
    assert_eq!(first.1, second.1);
    assert_eq!(first.2, second.2);
    let other = run(43);
    // A different seed is allowed to differ; the sequences almost surely do.
    assert!(other.2.len() == first.2.len());
}

#[test]
fn fanout_delivers_to_all_inner_probes() {
    let mut probes: Vec<AnyProbe> = Vec::new();
    probes.push(AnyProbe::Csv(CsvProbe::new()));
    probes.push(AnyProbe::Csv(CsvProbe::new()));
    probes.push(AnyProbe::Csv(CsvProbe::new()));
    let fanout = MultiProbe::new(probes);
    let cfg = small_cfg(4, 20, 5);
    let mut engine = PSOAlgorithm::new(cfg, SumOfSquares, fanout, RandomSource::from_seed(17))
        .expect("valid configuration");
    engine.execute().expect("run");
    let inner = engine.probe.inner_probes();
    assert_eq!(inner.len(), 3);
    let mut reference: Option<Vec<GenerationRecord>> = None;
    for probe in inner.iter() {
        match probe {
            AnyProbe::Csv(p) => {
                // floor(20 / 5) generation notifications, in order.
                assert_eq!(p.records().len(), 4);
                for (k, record) in p.records().iter().enumerate() {
                    assert_eq!(record.iteration, (k + 1) * 5);
                }
                match &reference {
                    None => reference = Some(p.records().clone()),
                    Some(first) => assert_eq!(p.records(), first),
                }
            }
            _ => panic!("only record probes were registered"),
        }
    }
    assert!(engine.probe.errors().is_empty());
}

#[test]
fn fanout_survives_failing_inner_probe() {
    let mut probes: Vec<AnyProbe> = Vec::new();
    probes.push(AnyProbe::Bounded(BoundedProbe::new(0)));
    probes.push(AnyProbe::Csv(CsvProbe::new()));
    let fanout = MultiProbe::new(probes);
    let cfg = small_cfg(3, 5, 1);
    let mut engine = PSOAlgorithm::new(cfg, SumOfSquares, fanout, RandomSource::from_seed(23))
        .expect("valid configuration");
    engine.execute().expect("probe failures never abort the run");
    let inner = engine.probe.inner_probes();
    match &inner[0] {
        AnyProbe::Bounded(p) => assert_eq!(p.records.len(), 0),
        _ => panic!("the bounded probe stands first"),
    }
    match &inner[1] {
        AnyProbe::Csv(p) => {
            // The probe after the failing one still received every event.
            assert_eq!(p.records().len(), 5);
        }
        _ => panic!("the record probe stands second"),
    }
    // One delivery error per generation notification was collected.
    assert_eq!(engine.probe.errors().len(), 5);
}

#[test]
fn converges_on_sum_of_squares() {
    let cfg = PSOAlgorithmCfg::default();
    let mut engine =
        PSOAlgorithm::new(cfg, SumOfSquares, CsvProbe::new(), RandomSource::from_seed(2024))
            .expect("valid configuration");
    engine.execute().expect("run");
    // Within 1e-3 of the true minimum 0, in scaled units.
    assert!(
        engine.swarm.global_best_fitness <= UNIT / 1000,
        "final best fitness {} out of tolerance",
        engine.swarm.global_best_fitness
    );
    assert!(engine.swarm.global_best_fitness >= 0);
}

#[test]
fn demo_produces_record_table() {
    let output = pso_demo();
    assert!(output.starts_with("generation,best_fitness\n"));
    // One header line plus one line per notification: 1000 / 50 of them.
    assert_eq!(output.lines().count(), 21);
}
