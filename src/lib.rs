//! Scheduling and light-transport decisions of a parallel Monte-Carlo ray
//! tracer.
//!
//! The numeric side of rendering (spectral values, rays, geometry) is held
//! by the caller; this crate decides what work is done, in which order and
//! how often, and when a result is fatal.

pub mod integrator;
pub mod radiance;
pub mod rng;
pub mod sampler_renderer;
pub mod scheduler;
pub mod spectrum;
pub mod task;
