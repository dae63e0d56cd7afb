//! The error taxonomy of the engine.

use vstd::prelude::*;

verus! {

/// Invalid parameters at construction. Fatal: no swarm is created and no
/// iteration runs.
#[derive(Clone, Copy, PartialEq, Eq, Structural, Debug)]
pub enum ConfigurationError {
    /// The swarm would hold no particle.
    ZeroParticleCount,
    /// The search space would have no dimension.
    ZeroDimensions,
    /// The lower bound does not lie strictly below the upper bound.
    InvertedBounds,
    /// Progress would be reported every zero iterations.
    ZeroNotificationInterval,
}

/// A sink-backed probe failed to persist an event. Non-fatal: the fan-out
/// continues to notify the remaining probes, and the optimization result
/// stays available to the caller.
#[derive(Clone, Copy, PartialEq, Eq, Structural, Debug)]
pub struct ProbeDeliveryError;

/// The engine was driven against its lifecycle. Non-destructive: the
/// engine's state is left as it was.
#[derive(Clone, Copy, PartialEq, Eq, Structural, Debug)]
pub enum StateError {
    /// `execute` may be called at most once per engine instance.
    AlreadyExecuted,
}

} // verus!
