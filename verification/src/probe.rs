//! The observation protocol.
//!
//! A probe is a sink notified of the engine's lifecycle events: a start
//! event, a per-iteration snapshot at the configured interval, and an end
//! event. Probes receive read-only snapshots and must not affect the
//! optimization result. Each probe carries an abstract history of the
//! notifications it has received; every implementation appends exactly
//! the delivered event to that history, whether or not its sink could
//! persist it, so contracts can count and order deliveries precisely.

use vstd::prelude::*;
use crate::errors::ProbeDeliveryError;
use crate::swarm::{Swarm, SwarmModel};

verus! {

/// One lifecycle event, together with the swarm snapshot it reported.
pub enum ProbeEvent {
    /// The run is about to start; the snapshot is the freshly generated swarm.
    Begin { swarm: SwarmModel },
    /// The numbered iteration has completed.
    Generation { iteration: int, swarm: SwarmModel },
    /// The run has completed; the snapshot is the final swarm.
    End { swarm: SwarmModel },
}

/// A sink for lifecycle events.
///
/// A delivery may fail with `ProbeDeliveryError`; failure is non-fatal to
/// the optimization, and a failed delivery still counts as received in
/// the probe's history.
pub trait Probe: Sized {
    /// The notifications this probe has received, in delivery order.
    spec fn log(&self) -> Seq<ProbeEvent>;

    /// Deliver the start-of-run event.
    fn on_begin(&mut self, swarm: &Swarm) -> (r: Result<(), ProbeDeliveryError>)
        ensures
            final(self).log() == old(self).log().push(ProbeEvent::Begin { swarm: swarm@ }),
    ;

    /// Deliver the snapshot taken after iteration `iteration` completed.
    fn on_new_generation(&mut self, swarm: &Swarm, iteration: usize) -> (r: Result<
        (),
        ProbeDeliveryError,
    >)
        ensures
            final(self).log() == old(self).log().push(
                ProbeEvent::Generation { iteration: iteration as int, swarm: swarm@ },
            ),
    ;

    /// Deliver the end-of-run event.
    fn on_end(&mut self, swarm: &Swarm) -> (r: Result<(), ProbeDeliveryError>)
        ensures
            final(self).log() == old(self).log().push(ProbeEvent::End { swarm: swarm@ }),
    ;
}

} // verus!
