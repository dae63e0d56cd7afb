//! A console probe: writes one human-readable progress line per event.

use vstd::prelude::*;
use std::io::Write;
use crate::errors::ProbeDeliveryError;
use crate::probe::{Probe, ProbeEvent};
use crate::swarm::Swarm;

verus! {

/// Relies on std::io::Stdout::write_fmt (through writeln) to print one
/// labeled progress line.
#[verifier::external_body]
fn emit_labeled(label: &str, value: i64) {
    let _ = writeln!(std::io::stdout(), "{} best fitness (scaled): {}", label, value);
}

/// Relies on std::io::Stdout::write_fmt (through writeln) to print one
/// per-iteration progress line.
#[verifier::external_body]
fn emit_generation(iteration: usize, value: i64) {
    let _ = writeln!(std::io::stdout(), "iteration {}: best fitness (scaled) {}", iteration, value);
}

/// A probe that prints progress to standard output. It holds no runtime
/// state beyond its abstract notification history.
pub struct StdoutProbe {
    /// The notifications received so far.
    pub history: Ghost<Seq<ProbeEvent>>,
}

impl StdoutProbe {
    /// A console probe that has seen no event yet.
    pub fn new() -> (r: StdoutProbe)
        ensures
            r.log() == Seq::<ProbeEvent>::empty(),
    {
        StdoutProbe { history: Ghost(Seq::empty()) }
    }
}

impl Probe for StdoutProbe {
    open spec fn log(&self) -> Seq<ProbeEvent> {
        self.history@
    }

    fn on_begin(&mut self, swarm: &Swarm) -> (r: Result<(), ProbeDeliveryError>)
        ensures
            r is Ok,
    {
        emit_labeled("optimization started, initial", swarm.global_best_fitness);
        proof {
            self.history@ = self.history@.push(ProbeEvent::Begin { swarm: swarm@ });
        }
        Ok(())
    }

    fn on_new_generation(&mut self, swarm: &Swarm, iteration: usize) -> (r: Result<
        (),
        ProbeDeliveryError,
    >)
        ensures
            r is Ok,
    {
        emit_generation(iteration, swarm.global_best_fitness);
        proof {
            self.history@ = self.history@.push(
                ProbeEvent::Generation { iteration: iteration as int, swarm: swarm@ },
            );
        }
        Ok(())
    }

    fn on_end(&mut self, swarm: &Swarm) -> (r: Result<(), ProbeDeliveryError>)
        ensures
            r is Ok,
    {
        emit_labeled("optimization finished, final", swarm.global_best_fitness);
        proof {
            self.history@ = self.history@.push(ProbeEvent::End { swarm: swarm@ });
        }
        Ok(())
    }
}

} // verus!
