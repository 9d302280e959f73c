//! The snapshot schema served over HTTP: a whole snapshot, its `cpu` object
//! and the entries of its sensor and process lists.
//!
//! Every field that the wire schema types as a 32-bit float holds here the
//! bit pattern of that float (see [`crate::f32_bits`]).

use vstd::prelude::*;

verus! {

/// Version of the HTTP API that the daemon serves.
pub const API_VERSION: &'static str = "v1";

/// One temperature sensor reading.
#[derive(Clone, Debug, PartialEq)]
pub struct TempSensor {
    pub chip: String,
    pub label: String,
    /// Degrees Celsius, as an `f32` bit pattern.
    pub temp_c: u32,
}

/// The 1, 5 and 15 minute load averages, each as an `f32` bit pattern.
#[derive(Clone, Copy, Debug, PartialEq)]
pub struct LoadAverage {
    pub one: u32,
    pub five: u32,
    pub fifteen: u32,
}

/// One process among the top CPU consumers.
#[derive(Clone, Debug, PartialEq)]
pub struct Process {
    pub pid: u32,
    pub name: String,
    /// CPU usage in percent of one core, as an `f32` bit pattern.
    pub cpu_percent: u32,
    pub memory_bytes: u64,
}

/// The `cpu` object of a snapshot.
#[derive(Clone, Debug, PartialEq)]
pub struct Cpu {
    pub model: Option<String>,
    pub vendor: Option<String>,
    pub logical_cores: u32,
    pub physical_cores: Option<u32>,
    /// Global usage in percent, as an `f32` bit pattern.
    pub usage_percent: u32,
    /// Usage of each logical core in percent, as `f32` bit patterns.
    pub per_core_usage: Vec<u32>,
    /// Degrees Celsius, as an `f32` bit pattern.
    pub temperature_c: Option<u32>,
    pub primary_sensor: Option<String>,
    pub temperatures: Vec<TempSensor>,
    /// MHz, as an `f32` bit pattern.
    pub frequency_mhz: Option<u32>,
    pub load_average: Option<LoadAverage>,
    pub uptime_s: Option<u64>,
    pub processes: Vec<Process>,
}

/// One complete snapshot, as served by `/v1/snapshot` and `/v1/stream`.
#[derive(Clone, Debug, PartialEq)]
pub struct Snapshot {
    /// RFC 3339 time at which the snapshot was made.
    pub timestamp: String,
    pub host: String,
    pub kernel: Option<String>,
    pub cpu: Cpu,
}

/// The character sequence of an optional string.
pub open spec fn opt_view(s: Option<String>) -> Option<Seq<char>> {
    match s {
        Some(s) => Some(s@),
        None => None,
    }
}

/// A string's view is kept, and a missing string stays missing.
pub proof fn lemma_opt_view(s: Option<String>)
    ensures
        s matches Some(t) ==> opt_view(s) == Some(t@),
        s is None <==> opt_view(s) is None,
{
}

/// A copy of an optional string.
pub fn clone_opt_string(s: &Option<String>) -> (copy: Option<String>)
    ensures
        copy == *s,
{
    match s {
        Some(v) => Some(v.clone()),
        None => None,
    }
}

} // verus!
