//! A particle-swarm optimization engine over a fixed-point search space,
//! with a fan-out observation protocol for reporting progress.

pub mod errors;
pub mod fixed;
pub mod rng;
pub mod objective;
pub mod particle;
pub mod swarm;
pub mod probe;
pub mod stdout_probe;
pub mod csv_probe;
pub mod multi_probe;
pub mod engine;
pub mod laws;
pub mod demo;
