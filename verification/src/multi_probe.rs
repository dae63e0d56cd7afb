//! The fan-out probe.
//!
//! `MultiProbe` holds an ordered list of inner probes and relays every
//! event it receives to each of them, in registration order. A failed
//! delivery to one inner probe never prevents the others from being
//! notified: its error is collected and the fan-out continues. Every
//! inner probe's history therefore always equals the fan-out's own.

use vstd::prelude::*;
use crate::errors::ProbeDeliveryError;
use crate::probe::{Probe, ProbeEvent};
use crate::swarm::{Swarm, SwarmModel};

verus! {

/// A probe that broadcasts each event to an ordered list of inner probes.
pub struct MultiProbe<P: Probe> {
    probes: Vec<P>,
    errors: Vec<ProbeDeliveryError>,
    history: Ghost<Seq<ProbeEvent>>,
}

impl<P: Probe> MultiProbe<P> {
    /// Every inner probe has received exactly the events the fan-out has.
    #[verifier::type_invariant]
    spec fn fanout_invariant(self) -> bool {
        forall|i: int|
            0 <= i < self.probes@.len() ==> (#[trigger] self.probes@[i]).log() == self.history@
    }

    /// How many inner probes are registered.
    pub closed spec fn inner_count(&self) -> nat {
        self.probes@.len()
    }

    /// The histories of the inner probes, in registration order.
    pub closed spec fn inner_logs(&self) -> Seq<Seq<ProbeEvent>> {
        Seq::new(self.probes@.len(), |i: int| self.probes@[i].log())
    }

    /// The delivery errors collected so far, in the order they arose.
    pub closed spec fn collected_errors(&self) -> Seq<ProbeDeliveryError> {
        self.errors@
    }

    /// A fan-out over the given probes, none of which has seen an event
    /// yet, in their given order.
    pub fn new(probes: Vec<P>) -> (r: MultiProbe<P>)
        requires
            forall|i: int|
                0 <= i < probes@.len() ==> (#[trigger] probes@[i]).log()
                    == Seq::<ProbeEvent>::empty(),
        ensures
            r.log() == Seq::<ProbeEvent>::empty(),
            r.inner_count() == probes@.len(),
            r.collected_errors() == Seq::<ProbeDeliveryError>::empty(),
    {
        MultiProbe { probes, errors: Vec::new(), history: Ghost(Seq::empty()) }
    }

    /// Probe completeness, as data: each registered probe's history is
    /// exactly the fan-out's own history — every event delivered to the
    /// fan-out reached every inner probe, in the same order.
    pub fn inner_probes(&self) -> (r: &Vec<P>)
        ensures
            r@.len() == self.inner_count(),
            forall|i: int| 0 <= i < r@.len() ==> (#[trigger] r@[i]).log() == self.log(),
    {
        proof {
            use_type_invariant(self);
        }
        &self.probes
    }

    /// The collected delivery errors.
    pub fn errors(&self) -> (r: &Vec<ProbeDeliveryError>)
        ensures
            r@ == self.collected_errors(),
    {
        &self.errors
    }

    /// Relay one event to every inner probe in registration order,
    /// collecting errors instead of stopping on them.
    fn relay(&mut self, swarm: &Swarm, iteration: Option<usize>, ending: bool) -> (r: Result<
        (),
        ProbeDeliveryError,
    >)
        ensures
            final(self).log() == old(self).log().push(event_of(swarm@, iteration, ending)),
            final(self).inner_count() == old(self).inner_count(),
            forall|i: int|
                0 <= i < old(self).inner_logs().len() ==> final(self).inner_logs()[i]
                    == old(self).inner_logs()[i].push(event_of(swarm@, iteration, ending)),
            old(self).collected_errors().is_prefix_of(final(self).collected_errors()),
            r is Ok,
    {
        proof {
            use_type_invariant(&*self);
        }
        let ghost event = event_of(swarm@, iteration, ending);
        let mut probes: Vec<P> = Vec::new();
        std::mem::swap(&mut probes, &mut self.probes);
        let mut errors: Vec<ProbeDeliveryError> = Vec::new();
        std::mem::swap(&mut errors, &mut self.errors);
        let count = probes.len();
        let mut i: usize = 0;
        while i < count
            invariant
                count == probes@.len(),
                i <= count,
                event == event_of(swarm@, iteration, ending),
                forall|k: int|
                    0 <= k < i ==> (#[trigger] probes@[k]).log() == old(self).history@.push(event),
                forall|k: int|
                    i <= k < count ==> (#[trigger] probes@[k]).log() == old(self).history@,
                old(self).collected_errors().is_prefix_of(errors@),
                self.history@ == old(self).history@,
                self.probes@.len() == 0,
            decreases count - i,
        {
            let probe = &mut probes[i];
            let delivered = match iteration {
                Some(n) => probe.on_new_generation(swarm, n),
                None => if ending {
                    probe.on_end(swarm)
                } else {
                    probe.on_begin(swarm)
                },
            };
            match delivered {
                Ok(()) => {},
                Err(e) => errors.push(e),
            }
            i = i + 1;
        }
        proof {
            self.history@ = self.history@.push(event);
        }
        self.probes = probes;
        self.errors = errors;
        proof {
            assert(final(self).inner_logs() =~= Seq::new(
                old(self).inner_logs().len(),
                |i: int| old(self).inner_logs()[i].push(event),
            ));
        }
        Ok(())
    }
}

/// The event that a relay call delivers: a generation snapshot when an
/// iteration number is given, otherwise the begin or end event.
pub open spec fn event_of(swarm: SwarmModel, iteration: Option<usize>, ending: bool) -> ProbeEvent {
    match iteration {
        Some(n) => ProbeEvent::Generation { iteration: n as int, swarm },
        None => if ending {
            ProbeEvent::End { swarm }
        } else {
            ProbeEvent::Begin { swarm }
        },
    }
}

impl<P: Probe> Probe for MultiProbe<P> {
    closed spec fn log(&self) -> Seq<ProbeEvent> {
        self.history@
    }

    fn on_begin(&mut self, swarm: &Swarm) -> (r: Result<(), ProbeDeliveryError>)
        ensures
            final(self).inner_count() == old(self).inner_count(),
            forall|i: int|
                0 <= i < old(self).inner_logs().len() ==> final(self).inner_logs()[i]
                    == old(self).inner_logs()[i].push(ProbeEvent::Begin { swarm: swarm@ }),
            old(self).collected_errors().is_prefix_of(final(self).collected_errors()),
            r is Ok,
    {
        self.relay(swarm, None, false)
    }

    fn on_new_generation(&mut self, swarm: &Swarm, iteration: usize) -> (r: Result<
        (),
        ProbeDeliveryError,
    >)
        ensures
            final(self).inner_count() == old(self).inner_count(),
            forall|i: int|
                0 <= i < old(self).inner_logs().len() ==> final(self).inner_logs()[i]
                    == old(self).inner_logs()[i].push(
                        ProbeEvent::Generation { iteration: iteration as int, swarm: swarm@ },
                    ),
            old(self).collected_errors().is_prefix_of(final(self).collected_errors()),
            r is Ok,
    {
        self.relay(swarm, Some(iteration), false)
    }

    fn on_end(&mut self, swarm: &Swarm) -> (r: Result<(), ProbeDeliveryError>)
        ensures
            final(self).inner_count() == old(self).inner_count(),
            forall|i: int|
                0 <= i < old(self).inner_logs().len() ==> final(self).inner_logs()[i]
                    == old(self).inner_logs()[i].push(ProbeEvent::End { swarm: swarm@ }),
            old(self).collected_errors().is_prefix_of(final(self).collected_errors()),
            r is Ok,
    {
        self.relay(swarm, None, true)
    }
}

} // verus!
