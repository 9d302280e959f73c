//! Sampling rules of a CPU monitor daemon: the values it reports, how it
//! picks and orders them, and when its sampler runs.
//!
//! Floating-point readings (usage percentages, temperatures, frequencies,
//! load averages) travel through this library as their IEEE-754 binary32
//! bit patterns (`f32::to_bits`); see [`f32_bits`].

pub mod f32_bits;
pub mod model;
pub mod ranking;
pub mod readings;
pub mod routes;
pub mod sampler;
pub mod source;
pub mod timing;
