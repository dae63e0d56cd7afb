//! A demonstration run of the engine, wired the way a caller would wire
//! it: a console probe and a record probe behind one fan-out.

use vstd::prelude::*;
use crate::csv_probe::{csv_text_of, records_of_log, BoundedProbe, CsvProbe, GenerationRecord};
use crate::engine::{draws_ok, run_to, run_trace, PSOAlgorithm, PSOAlgorithmCfg};
use crate::errors::ProbeDeliveryError;
use crate::laws::lemma_records_of_trace;
use crate::objective::Rosenbrock;
use crate::probe::{Probe, ProbeEvent};
use crate::rng::RandomSource;
use crate::stdout_probe::StdoutProbe;
use crate::swarm::{dims_of, swarm_wf, Swarm, SwarmModel};

verus! {

/// A probe of any of the library's kinds, so that sinks of different
/// kinds can stand together in one fan-out. Each operation keeps the
/// variant and behaves exactly as the wrapped probe does.
pub enum AnyProbe {
    /// Prints progress lines.
    Console(StdoutProbe),
    /// Accumulates records for one bulk CSV encoding.
    Csv(CsvProbe),
    /// Accumulates records into a sink of fixed capacity.
    Bounded(BoundedProbe),
}

impl Probe for AnyProbe {
    open spec fn log(&self) -> Seq<ProbeEvent> {
        match self {
            AnyProbe::Console(p) => p.log(),
            AnyProbe::Csv(p) => p.log(),
            AnyProbe::Bounded(p) => p.log(),
        }
    }

    fn on_begin(&mut self, swarm: &Swarm) -> (r: Result<(), ProbeDeliveryError>)
        ensures
            (*old(self)) matches AnyProbe::Console(_) ==> (*final(self)) matches AnyProbe::Console(_),
            (*old(self)) matches AnyProbe::Csv(p) ==> (*final(self)) matches AnyProbe::Csv(q)
                && q.recorded() == p.recorded(),
            (*old(self)) matches AnyProbe::Bounded(p) ==> (*final(self)) matches AnyProbe::Bounded(q)
                && q.records@ == p.records@ && q.capacity == p.capacity,
            r is Ok,
    {
        match self {
            AnyProbe::Console(p) => p.on_begin(swarm),
            AnyProbe::Csv(p) => p.on_begin(swarm),
            AnyProbe::Bounded(p) => p.on_begin(swarm),
        }
    }

    fn on_new_generation(&mut self, swarm: &Swarm, iteration: usize) -> (r: Result<
        (),
        ProbeDeliveryError,
    >)
        ensures
            (*old(self)) matches AnyProbe::Console(_) ==> (*final(self)) matches AnyProbe::Console(_) && r is Ok,
            (*old(self)) matches AnyProbe::Csv(p) ==> (*final(self)) matches AnyProbe::Csv(q)
                && q.recorded() == p.recorded().push(
                GenerationRecord { iteration, best_fitness: swarm.global_best_fitness },
            ) && r is Ok,
            (*old(self)) matches AnyProbe::Bounded(p) ==> (*final(self)) matches AnyProbe::Bounded(q)
                && q.capacity == p.capacity && (r is Ok <==> p.records@.len() < p.capacity) && (
            r is Ok ==> q.records@ == p.records@.push(
                GenerationRecord { iteration, best_fitness: swarm.global_best_fitness },
            )) && (r is Err ==> q.records@ == p.records@),
    {
        match self {
            AnyProbe::Console(p) => p.on_new_generation(swarm, iteration),
            AnyProbe::Csv(p) => p.on_new_generation(swarm, iteration),
            AnyProbe::Bounded(p) => p.on_new_generation(swarm, iteration),
        }
    }

    fn on_end(&mut self, swarm: &Swarm) -> (r: Result<(), ProbeDeliveryError>)
        ensures
            (*old(self)) matches AnyProbe::Console(_) ==> (*final(self)) matches AnyProbe::Console(_),
            (*old(self)) matches AnyProbe::Csv(p) ==> (*final(self)) matches AnyProbe::Csv(q)
                && q.recorded() == p.recorded(),
            (*old(self)) matches AnyProbe::Bounded(p) ==> (*final(self)) matches AnyProbe::Bounded(q)
                && q.records@ == p.records@ && q.capacity == p.capacity,
            r is Ok,
    {
        match self {
            AnyProbe::Console(p) => p.on_end(swarm),
            AnyProbe::Csv(p) => p.on_end(swarm),
            AnyProbe::Bounded(p) => p.on_end(swarm),
        }
    }
}

/// The demonstration wiring: a fixed fan-out that relays every event, in
/// order, to a console probe and then a record probe. Both sinks always
/// hold exactly the events the fan-out has received.
pub struct DemoProbe {
    console: StdoutProbe,
    csv: CsvProbe,
    history: Ghost<Seq<ProbeEvent>>,
}

impl DemoProbe {
    /// Both sinks have received exactly the events the fan-out has.
    #[verifier::type_invariant]
    spec fn sinks_follow(self) -> bool {
        &&& self.console.log() == self.history@
        &&& self.csv.log() == self.history@
    }

    /// A demonstration fan-out that has seen no event yet.
    pub fn new() -> (r: DemoProbe)
        ensures
            r.log() == Seq::<ProbeEvent>::empty(),
    {
        DemoProbe {
            console: StdoutProbe::new(),
            csv: CsvProbe::new(),
            history: Ghost(Seq::empty()),
        }
    }

    /// The record sink. It has received exactly the events the fan-out
    /// has, so its records and its CSV text follow the fan-out's history.
    pub fn record_sink(&self) -> (r: &CsvProbe)
        ensures
            r.log() == self.log(),
    {
        proof {
            use_type_invariant(self);
        }
        &self.csv
    }
}

impl Probe for DemoProbe {
    closed spec fn log(&self) -> Seq<ProbeEvent> {
        self.history@
    }

    fn on_begin(&mut self, swarm: &Swarm) -> (r: Result<(), ProbeDeliveryError>)
        ensures
            r is Ok,
    {
        proof {
            use_type_invariant(&*self);
        }
        let mut taken = DemoProbe::new();
        std::mem::swap(&mut taken, self);
        let DemoProbe { mut console, mut csv, history } = taken;
        let _ = console.on_begin(swarm);
        let _ = csv.on_begin(swarm);
        let ghost h2 = history@.push(ProbeEvent::Begin { swarm: swarm@ });
        *self = DemoProbe { console, csv, history: Ghost(h2) };
        Ok(())
    }

    fn on_new_generation(&mut self, swarm: &Swarm, iteration: usize) -> (r: Result<
        (),
        ProbeDeliveryError,
    >)
        ensures
            r is Ok,
    {
        proof {
            use_type_invariant(&*self);
        }
        let mut taken = DemoProbe::new();
        std::mem::swap(&mut taken, self);
        let DemoProbe { mut console, mut csv, history } = taken;
        let _ = console.on_new_generation(swarm, iteration);
        let _ = csv.on_new_generation(swarm, iteration);
        let ghost h2 = history@.push(
            ProbeEvent::Generation { iteration: iteration as int, swarm: swarm@ },
        );
        *self = DemoProbe { console, csv, history: Ghost(h2) };
        Ok(())
    }

    fn on_end(&mut self, swarm: &Swarm) -> (r: Result<(), ProbeDeliveryError>)
        ensures
            r is Ok,
    {
        proof {
            use_type_invariant(&*self);
        }
        let mut taken = DemoProbe::new();
        std::mem::swap(&mut taken, self);
        let DemoProbe { mut console, mut csv, history } = taken;
        let _ = console.on_end(swarm);
        let _ = csv.on_end(swarm);
        let ghost h2 = history@.push(ProbeEvent::End { swarm: swarm@ });
        *self = DemoProbe { console, csv, history: Ghost(h2) };
        Ok(())
    }
}

/// The configuration of the demonstration run: the valley-shaped
/// benchmark in three dimensions, a thousand iterations, a notification
/// every fifty, all other parameters at their reference defaults.
pub open spec fn demo_cfg() -> PSOAlgorithmCfg {
    PSOAlgorithmCfg {
        dimensions: 3,
        iterations: 1000,
        log_interval: 50,
        ..crate::engine::default_cfg()
    }
}

/// Run the demonstration: generate a swarm for `demo_cfg`, drive the full
/// run with the console-and-record fan-out attached, and hand back the
/// record sink's CSV text for the caller to persist.
///
/// The returned text is the CSV table of the run the engine performed:
/// for some starting swarm of the configured shape and some sequence of
/// in-range random draws, it encodes exactly the twenty records whose
/// iteration numbers are 50, 100, ..., 1000 and whose fitness values are
/// the global best of the run after those iterations.
pub fn pso_demo() -> (output: String)
    ensures
        exists|s0: SwarmModel, ds: Seq<(Seq<i64>, Seq<i64>)>|
            {
                &&& #[trigger] draws_ok(
                    ds,
                    demo_cfg().particle_count as nat,
                    demo_cfg().iterations as nat,
                )
                &&& #[trigger] swarm_wf(s0)
                &&& s0.particles.len() == demo_cfg().particle_count
                &&& dims_of(s0) == demo_cfg().dimensions
                &&& output@ == csv_text_of(
                    records_of_log(
                        run_trace(s0, Rosenbrock, demo_cfg(), ds, demo_cfg().iterations as nat),
                    ),
                )
                &&& records_of_log(
                    run_trace(s0, Rosenbrock, demo_cfg(), ds, demo_cfg().iterations as nat),
                ).len() == 20
                &&& forall|k: int|
                    0 <= k < 20 ==> (#[trigger] records_of_log(
                        run_trace(s0, Rosenbrock, demo_cfg(), ds, demo_cfg().iterations as nat),
                    )[k]) == (GenerationRecord {
                        iteration: ((k + 1) * 50) as usize,
                        best_fitness: run_to(
                            s0,
                            Rosenbrock,
                            demo_cfg(),
                            ds,
                            ((k + 1) * 50) as nat,
                        ).global_best_fitness,
                    })
            },
{
    let mut config = PSOAlgorithmCfg::default();
    config.dimensions = 3;
    config.iterations = 1000;
    config.log_interval = 50;
    proof {
        assert(config == demo_cfg());
    }
    let probe = DemoProbe::new();
    let rng = RandomSource::from_entropy();
    match PSOAlgorithm::new(config, Rosenbrock, probe, rng) {
        Ok(mut engine) => {
            let ghost pre = engine;
            let _ = engine.execute();
            let output = engine.probe.record_sink().flush();
            proof {
                let s0 = pre.swarm@;
                let ds = choose|ds: Seq<(Seq<i64>, Seq<i64>)>|
                    {
                        &&& #[trigger] draws_ok(
                            ds,
                            pre.config.particle_count as nat,
                            pre.config.iterations as nat,
                        )
                        &&& engine.swarm@ == run_to(
                            pre.swarm@,
                            pre.objective,
                            pre.config,
                            ds,
                            pre.config.iterations as nat,
                        )
                        &&& engine.probe.log() == pre.probe.log() + run_trace(
                            pre.swarm@,
                            pre.objective,
                            pre.config,
                            ds,
                            pre.config.iterations as nat,
                        )
                    };
                assert(engine.probe.log() =~= run_trace(
                    s0,
                    Rosenbrock,
                    demo_cfg(),
                    ds,
                    demo_cfg().iterations as nat,
                ));
                lemma_records_of_trace(
                    s0,
                    Rosenbrock,
                    demo_cfg(),
                    ds,
                    demo_cfg().iterations as nat,
                );
                assert(1000int / 50int == 20);
            }
            output
        },
        Err(_) => {
            proof {
                assert(false);
            }
            String::new()
        },
    }
}

} // verus!
