use swarm_engine::csv_probe::CsvProbe;
use swarm_engine::probe::Probe;
use swarm_engine::swarm::Swarm;
use swarm_engine::fixed::{fx_mul, sat_add, sat_sub, UNIT};
use swarm_engine::objective::{Objective, Rosenbrock, SumOfSquares};
use swarm_engine::rng::RandomSource;

#[test]
fn saturating_addition() {
    assert_eq!(sat_add(2 * UNIT, 3 * UNIT), 5 * UNIT);
    assert_eq!(sat_add(i64::MAX, 1), i64::MAX);
    assert_eq!(sat_add(i64::MIN, -1), i64::MIN);
    assert_eq!(sat_add(-UNIT, UNIT), 0);
}

#[test]
fn saturating_subtraction() {
    assert_eq!(sat_sub(5 * UNIT, 2 * UNIT), 3 * UNIT);
    assert_eq!(sat_sub(i64::MIN, 1), i64::MIN);
    assert_eq!(sat_sub(i64::MAX, -1), i64::MAX);
}

#[test]
fn fixed_point_multiplication() {
    // 2.0 * 3.0 == 6.0 in scaled units.
    assert_eq!(fx_mul(2 * UNIT, 3 * UNIT), 6 * UNIT);
    // (-1.5) * 2.0 == -3.0.
    assert_eq!(fx_mul(-1_500_000, 2 * UNIT), -3 * UNIT);
    // Truncation toward zero at the smallest magnitudes.
    assert_eq!(fx_mul(1, 1), 0);
    assert_eq!(fx_mul(-1, 1), 0);
    // Half times half is a quarter.
    assert_eq!(fx_mul(500_000, 500_000), 250_000);
    // Saturation instead of overflow.
    assert_eq!(fx_mul(i64::MAX, i64::MAX), i64::MAX);
    assert_eq!(fx_mul(i64::MAX, i64::MIN), i64::MIN);
}

#[test]
fn sum_of_squares_values() {
    // 1.0^2 + 2.0^2 == 5.0.
    let point = vec![UNIT, 2 * UNIT];
    assert_eq!(SumOfSquares.eval(&point), 5 * UNIT);
    let origin = vec![0, 0, 0];
    assert_eq!(SumOfSquares.eval(&origin), 0);
    let empty: Vec<i64> = Vec::new();
    assert_eq!(SumOfSquares.eval(&empty), 0);
}

#[test]
fn rosenbrock_values() {
    // The global minimum: all coordinates 1.0.
    let minimum = vec![UNIT, UNIT, UNIT];
    assert_eq!(Rosenbrock.eval(&minimum), 0);
    // At the origin in two dimensions: 100 * 0 + (1 - 0)^2 == 1.0.
    let origin = vec![0, 0];
    assert_eq!(Rosenbrock.eval(&origin), UNIT);
    // Fewer than two coordinates leave no adjacent pair.
    let single = vec![5 * UNIT];
    assert_eq!(Rosenbrock.eval(&single), 0);
}

#[test]
fn random_draws_in_range() {
    let mut rng = RandomSource::from_seed(99);
    for _ in 0..1000 {
        let unit_draw = rng.next_unit();
        assert!(0 <= unit_draw && unit_draw < UNIT);
        let ranged = rng.next_in(-5, 7);
        assert!(-5 <= ranged && ranged < 7);
    }
    let v = rng.draw_units(25);
    assert_eq!(v.len(), 25);
}

#[test]
fn seeded_sources_agree() {
    let mut a = RandomSource::from_seed(7);
    let mut b = RandomSource::from_seed(7);
    for _ in 0..100 {
        assert_eq!(a.next_unit(), b.next_unit());
    }
}

fn snapshot(best_fitness: i64) -> Swarm {
    Swarm { particles: Vec::new(), global_best_position: Vec::new(), global_best_fitness: best_fitness }
}

#[test]
fn csv_flush_exact_text() {
    let mut probe = CsvProbe::new();
    probe.on_new_generation(&snapshot(123), 50).expect("in-memory sink");
    probe.on_new_generation(&snapshot(-7), 100).expect("in-memory sink");
    assert_eq!(probe.records().len(), 2);
    let text = probe.flush();
    assert_eq!(text, "generation,best_fitness\n50,123\n100,-7\n");
}

#[test]
fn csv_flush_header_only() {
    let probe = CsvProbe::new();
    assert_eq!(probe.flush(), "generation,best_fitness\n");
}
