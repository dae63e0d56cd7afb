//! The engine's laws, stated over the run model and proved once for all
//! configurations, draws and objectives.

use vstd::prelude::*;
use vstd::arithmetic::div_mod::{lemma_fundamental_div_mod, lemma_fundamental_div_mod_converse};
use crate::csv_probe::{record_of_event, records_of_log, GenerationRecord};
use crate::engine::{gen_events, run_to, run_trace, step_spec, PSOAlgorithmCfg};
use crate::objective::Objective;
use crate::probe::ProbeEvent;
use crate::swarm::{
    best_updated, dims_of, lemma_refreshed_props, positions_updated, swarm_wf, velocities_updated,
    SwarmModel,
};

verus! {

/// One iteration never worsens the global best fitness: the velocity and
/// position passes leave it untouched, and the refresh adopts a personal
/// best only on strict improvement.
pub proof fn lemma_step_monotone<O: Objective>(
    s: SwarmModel,
    objective: O,
    config: PSOAlgorithmCfg,
    r1s: Seq<i64>,
    r2s: Seq<i64>,
)
    ensures
        step_spec(s, objective, config, r1s, r2s).global_best_fitness <= s.global_best_fitness,
{
    let moved = positions_updated(
        velocities_updated(
            s,
            config.inertia_weight,
            config.cognitive_coefficient,
            config.social_coefficient,
            r1s,
            r2s,
        ),
        objective,
    );
    lemma_refreshed_props(moved.particles, moved.global_best_fitness, moved.global_best_position);
}

/// Monotonicity: after iteration `k + 1` the global best fitness is never
/// worse than after iteration `k`, for every run, every draw sequence and
/// every objective.
pub proof fn lemma_iteration_monotone<O: Objective>(
    s: SwarmModel,
    objective: O,
    config: PSOAlgorithmCfg,
    ds: Seq<(Seq<i64>, Seq<i64>)>,
    k: nat,
)
    ensures
        run_to(s, objective, config, ds, k + 1).global_best_fitness <= run_to(
            s,
            objective,
            config,
            ds,
            k,
        ).global_best_fitness,
{
    lemma_step_monotone(run_to(s, objective, config, ds, k), objective, config, ds[k as int].0, ds[k as int].1);
}

/// Monotonicity across any stretch of a run: the global best fitness
/// after `n` iterations is never worse than after the first `k` of them.
pub proof fn lemma_run_monotone<O: Objective>(
    s: SwarmModel,
    objective: O,
    config: PSOAlgorithmCfg,
    ds: Seq<(Seq<i64>, Seq<i64>)>,
    n: nat,
)
    ensures
        run_to(s, objective, config, ds, n).global_best_fitness <= s.global_best_fitness,
        forall|k: nat|
            k <= n ==> run_to(s, objective, config, ds, n).global_best_fitness <= run_to(
                s,
                objective,
                config,
                ds,
                k,
            ).global_best_fitness,
    decreases n,
{
    if n > 0 {
        lemma_run_monotone(s, objective, config, ds, (n - 1) as nat);
        lemma_iteration_monotone(s, objective, config, ds, (n - 1) as nat);
        assert forall|k: nat| k <= n implies run_to(
            s,
            objective,
            config,
            ds,
            n,
        ).global_best_fitness <= run_to(s, objective, config, ds, k).global_best_fitness by {
            if k < n {
                assert(run_to(s, objective, config, ds, (n - 1) as nat).global_best_fitness
                    <= run_to(s, objective, config, ds, k).global_best_fitness);
            }
        };
    }
}

/// Determinism: the run is a function of the starting swarm, the
/// configuration, the objective and the random draws alone. Two runs
/// given the same of each pass through the same states and deliver the
/// same notifications.
pub proof fn lemma_run_deterministic<O: Objective>(
    s1: SwarmModel,
    s2: SwarmModel,
    objective: O,
    config: PSOAlgorithmCfg,
    ds1: Seq<(Seq<i64>, Seq<i64>)>,
    ds2: Seq<(Seq<i64>, Seq<i64>)>,
    n: nat,
)
    requires
        s1 == s2,
        ds1 == ds2,
    ensures
        run_to(s1, objective, config, ds1, n) == run_to(s2, objective, config, ds2, n),
        run_trace(s1, objective, config, ds1, n) == run_trace(s2, objective, config, ds2, n),
{
}

/// Dimensional consistency of one iteration: every particle keeps
/// vectors of the configured length, and the search space keeps its
/// dimensionality.
pub proof fn lemma_step_wf<O: Objective>(
    s: SwarmModel,
    objective: O,
    config: PSOAlgorithmCfg,
    r1s: Seq<i64>,
    r2s: Seq<i64>,
)
    requires
        swarm_wf(s),
    ensures
        swarm_wf(step_spec(s, objective, config, r1s, r2s)),
        dims_of(step_spec(s, objective, config, r1s, r2s)) == dims_of(s),
{
    let turned = velocities_updated(
        s,
        config.inertia_weight,
        config.cognitive_coefficient,
        config.social_coefficient,
        r1s,
        r2s,
    );
    let moved = positions_updated(turned, objective);
    assert(swarm_wf(turned));
    assert(swarm_wf(moved));
    lemma_refreshed_props(moved.particles, moved.global_best_fitness, moved.global_best_position);
}

/// Dimensional consistency for all particles at all times: it holds of
/// the starting swarm, and every iteration preserves it.
pub proof fn lemma_run_wf<O: Objective>(
    s: SwarmModel,
    objective: O,
    config: PSOAlgorithmCfg,
    ds: Seq<(Seq<i64>, Seq<i64>)>,
    n: nat,
)
    requires
        swarm_wf(s),
    ensures
        swarm_wf(run_to(s, objective, config, ds, n)),
        dims_of(run_to(s, objective, config, ds, n)) == dims_of(s),
    decreases n,
{
    if n > 0 {
        lemma_run_wf(s, objective, config, ds, (n - 1) as nat);
        lemma_step_wf(
            run_to(s, objective, config, ds, (n - 1) as nat),
            objective,
            config,
            ds[n - 1].0,
            ds[n - 1].1,
        );
    }
}

/// How integer division steps when the dividend grows by one.
proof fn lemma_div_step(n: int, d: int)
    requires
        n >= 1,
        d >= 1,
    ensures
        n % d == 0 ==> n / d == (n - 1) / d + 1,
        n % d != 0 ==> n / d == (n - 1) / d,
{
    let q = (n - 1) / d;
    let r = (n - 1) % d;
    lemma_fundamental_div_mod(n - 1, d);
    if r == d - 1 {
        assert(n == (q + 1) * d + 0) by (nonlinear_arith)
            requires
                n - 1 == d * q + r,
                r == d - 1,
        ;
        lemma_fundamental_div_mod_converse(n, d, q + 1, 0);
    } else {
        assert(n == q * d + (r + 1)) by (nonlinear_arith)
            requires
                n - 1 == d * q + r,
        ;
        lemma_fundamental_div_mod_converse(n, d, q, r + 1);
    }
}

/// Probe completeness, counted: during `n` iterations notified every
/// `log_interval`-th, the generation events are exactly one per multiple
/// of the interval — the `k`-th carries iteration number
/// `(k + 1) * log_interval` and the swarm after that iteration — so there
/// are exactly `n / log_interval` of them, in iteration order.
pub proof fn lemma_gen_events_form<O: Objective>(
    s: SwarmModel,
    objective: O,
    config: PSOAlgorithmCfg,
    ds: Seq<(Seq<i64>, Seq<i64>)>,
    n: nat,
)
    requires
        config.log_interval >= 1,
    ensures
        gen_events(s, objective, config, ds, n) == Seq::new(
            (n as int / config.log_interval as int) as nat,
            |k: int| ProbeEvent::Generation {
                iteration: (k + 1) * config.log_interval as int,
                swarm: run_to(
                    s,
                    objective,
                    config,
                    ds,
                    ((k + 1) * config.log_interval as int) as nat,
                ),
            },
        ),
    decreases n,
{
    let interval = config.log_interval as int;
    let form = |m: nat| Seq::new(
        (m as int / interval) as nat,
        |k: int| ProbeEvent::Generation {
            iteration: (k + 1) * interval,
            swarm: run_to(s, objective, config, ds, ((k + 1) * interval) as nat),
        },
    );
    if n == 0 {
        assert(0int / interval == 0) by {
            lemma_fundamental_div_mod_converse(0, interval, 0, 0);
        }
        assert(gen_events(s, objective, config, ds, n) =~= form(0));
    } else {
        lemma_gen_events_form(s, objective, config, ds, (n - 1) as nat);
        lemma_div_step(n as int, interval);
        if n as int % interval == 0 {
            lemma_fundamental_div_mod(n as int, interval);
            assert((n as int / interval) * interval == n) by (nonlinear_arith)
                requires
                    n as int == interval * (n as int / interval) + (n as int % interval),
                    n as int % interval == 0,
            ;
            assert(gen_events(s, objective, config, ds, n) =~= form(n));
        } else {
            assert(gen_events(s, objective, config, ds, n) =~= form(n));
        }
    }
}

/// The whole notification trace of a run: the begin event, then exactly
/// `n / log_interval` generation events, then the end event.
pub proof fn lemma_run_trace_shape<O: Objective>(
    s: SwarmModel,
    objective: O,
    config: PSOAlgorithmCfg,
    ds: Seq<(Seq<i64>, Seq<i64>)>,
    n: nat,
)
    requires
        config.log_interval >= 1,
    ensures
        run_trace(s, objective, config, ds, n).len() == n as int / config.log_interval as int + 2,
        run_trace(s, objective, config, ds, n)[0] == (ProbeEvent::Begin { swarm: s }),
        run_trace(s, objective, config, ds, n).last() == (ProbeEvent::End {
            swarm: run_to(s, objective, config, ds, n),
        }),
        forall|k: int|
            1 <= k < run_trace(s, objective, config, ds, n).len() - 1 ==> run_trace(
                s,
                objective,
                config,
                ds,
                n,
            )[k] is Generation,
{
    lemma_gen_events_form(s, objective, config, ds, n);
}

/// The records of a concatenated history are the concatenated records.
proof fn lemma_records_of_log_concat(a: Seq<ProbeEvent>, b: Seq<ProbeEvent>)
    ensures
        records_of_log(a + b) == records_of_log(a) + records_of_log(b),
    decreases b.len(),
{
    if b.len() == 0 {
        assert(a + b =~= a);
        assert(records_of_log(a) + records_of_log(b) =~= records_of_log(a));
    } else {
        lemma_records_of_log_concat(a, b.drop_last());
        assert((a + b).drop_last() =~= a + b.drop_last());
        assert((a + b).last() == b.last());
        assert(records_of_log(a) + records_of_log(b.drop_last()) + (
        if b.last() is Generation {
            seq![record_of_event(b.last())]
        } else {
            Seq::<GenerationRecord>::empty()
        }) =~= records_of_log(a) + records_of_log(b));
    }
}

/// A history of generation events alone gives one record per event, in
/// the same order.
proof fn lemma_records_all_generation(events: Seq<ProbeEvent>)
    requires
        forall|k: int| 0 <= k < events.len() ==> events[k] is Generation,
    ensures
        records_of_log(events).len() == events.len(),
        forall|k: int|
            0 <= k < events.len() ==> records_of_log(events)[k] == record_of_event(events[k]),
    decreases events.len(),
{
    if events.len() > 0 {
        lemma_records_all_generation(events.drop_last());
        assert(events.last() is Generation);
        assert forall|k: int|
            0 <= k < events.len() implies records_of_log(events)[k] == record_of_event(
            events[k],
        ) by {
            if k < events.len() - 1 {
                assert(records_of_log(events.drop_last())[k] == record_of_event(
                    events.drop_last()[k],
                ));
            }
        };
    }
}

/// What a record probe accumulates over a whole run: exactly
/// `n / log_interval` records; the `k`-th carries iteration number
/// `(k + 1) * log_interval` and the global best fitness of the swarm
/// after that iteration.
pub proof fn lemma_records_of_trace<O: Objective>(
    s: SwarmModel,
    objective: O,
    config: PSOAlgorithmCfg,
    ds: Seq<(Seq<i64>, Seq<i64>)>,
    n: nat,
)
    requires
        config.log_interval >= 1,
    ensures
        records_of_log(run_trace(s, objective, config, ds, n)).len() == n as int
            / config.log_interval as int,
        forall|k: int|
            0 <= k < n as int / config.log_interval as int ==> #[trigger] records_of_log(
                run_trace(s, objective, config, ds, n),
            )[k] == (GenerationRecord {
                iteration: ((k + 1) * config.log_interval as int) as usize,
                best_fitness: run_to(
                    s,
                    objective,
                    config,
                    ds,
                    ((k + 1) * config.log_interval as int) as nat,
                ).global_best_fitness,
            }),
{
    lemma_gen_events_form(s, objective, config, ds, n);
    let gens = gen_events(s, objective, config, ds, n);
    let begin = seq![ProbeEvent::Begin { swarm: s }];
    let end = seq![ProbeEvent::End { swarm: run_to(s, objective, config, ds, n) }];
    lemma_records_of_log_concat(begin + gens, end);
    lemma_records_of_log_concat(begin, gens);
    assert(records_of_log(begin) =~= Seq::<GenerationRecord>::empty()) by {
        assert(begin.len() == 1);
        assert(begin.drop_last() =~= Seq::<ProbeEvent>::empty());
        assert(begin.last() == ProbeEvent::Begin { swarm: s });
        assert(records_of_log(Seq::<ProbeEvent>::empty()) =~= Seq::<GenerationRecord>::empty());
    };
    assert(records_of_log(end) =~= Seq::<GenerationRecord>::empty()) by {
        assert(end.len() == 1);
        assert(end.drop_last() =~= Seq::<ProbeEvent>::empty());
        assert(end.last() == ProbeEvent::End { swarm: run_to(s, objective, config, ds, n) });
        assert(records_of_log(Seq::<ProbeEvent>::empty()) =~= Seq::<GenerationRecord>::empty());
    };
    lemma_records_all_generation(gens);
    assert(records_of_log(run_trace(s, objective, config, ds, n)) =~= records_of_log(gens));
}

} // verus!
