//! Temperature and cluster-frequency readings layered on top of a sample.
//!
//! On Apple Silicon the IOReport framework reports an average CPU and GPU
//! temperature and a frequency for each of the two CPU clusters. The rules
//! here turn those readings into the temperature fields of a snapshot and
//! decide whether a package frequency can be reported.

use vstd::prelude::*;
use crate::f32_bits::{
    is_positive, spec_is_nan, spec_is_positive, spec_is_zero, spec_less_than, spec_sign_set, POSITIVE_ZERO,
};
use crate::model::{opt_view, TempSensor};

verus! {

/// Readings that a sample takes over as they are. Empty when no such source
/// is available (Intel Macs, or the IOReport sampler could not start).
#[derive(Debug, PartialEq)]
pub struct ExtraReadings {
    /// Degrees Celsius, as an `f32` bit pattern.
    pub temperature_c: Option<u32>,
    pub primary_sensor: Option<String>,
    pub temperatures: Vec<TempSensor>,
    /// MHz, as an `f32` bit pattern.
    pub frequency_mhz: Option<u32>,
}

/// Frequencies and core counts of the efficiency (E) and performance (P)
/// CPU clusters.
#[derive(Clone, Copy, Debug, PartialEq)]
pub struct ClusterFrequencies {
    pub pcpu_freq_mhz: u32,
    pub ecpu_freq_mhz: u32,
    pub pcpu_cores: u8,
    pub ecpu_cores: u8,
}

/// A reading that is present and greater than zero.
pub open spec fn spec_reading_positive(t: Option<u32>) -> bool {
    match t {
        Some(bits) => spec_is_positive(bits),
        None => false,
    }
}

/// A sensor entry with the given chip, label and temperature.
pub open spec fn spec_sensor_is(s: TempSensor, chip: Seq<char>, label: Seq<char>, temp_c: u32) -> bool {
    &&& s.chip@ == chip
    &&& s.label@ == label
    &&& s.temp_c == temp_c
}

/// A package frequency can be reported: there is at least one core and at
/// least one cluster runs at a non-zero frequency.
pub open spec fn spec_cluster_frequency_known(c: ClusterFrequencies) -> bool {
    &&& c.pcpu_cores + c.ecpu_cores > 0
    &&& (c.pcpu_freq_mhz > 0 || c.ecpu_freq_mhz > 0)
}

/// The readings hold nothing.
pub open spec fn spec_readings_empty(r: ExtraReadings) -> bool {
    &&& r.temperature_c is None
    &&& r.primary_sensor is None
    &&& r.temperatures@.len() == 0
    &&& r.frequency_mhz is None
}

/// Empty readings report no temperature, no sensor, no sensor entry and no
/// frequency.
pub proof fn lemma_empty_readings_hold_nothing(r: ExtraReadings)
    requires
        spec_readings_empty(r),
    ensures
        r.temperature_c == None::<u32>,
        r.primary_sensor == None::<String>,
        r.temperatures@ =~= Seq::<TempSensor>::empty(),
        r.frequency_mhz == None::<u32>,
{
}

/// A temperature reading counts exactly when it is present and its value
/// compares greater than `0.0`, of whatever magnitude: it is dropped only
/// when absent, zero, negative or NaN.
pub proof fn lemma_reading_kept_iff_above_zero(t: Option<u32>)
    ensures
        t matches Some(b) ==> (spec_reading_positive(t) <==> spec_less_than(POSITIVE_ZERO, b)),
        t is None ==> !spec_reading_positive(t),
        t matches Some(b) ==> (!spec_sign_set(b) && !spec_is_nan(b) && !spec_is_zero(b)
            ==> spec_reading_positive(t)),
{
}

/// A package frequency is known exactly when the clusters have at least one
/// core between them and at least one cluster runs, whichever that is.
pub proof fn lemma_cluster_frequency_known_iff(c: ClusterFrequencies)
    ensures
        spec_cluster_frequency_known(c) <==> (c.pcpu_cores + c.ecpu_cores > 0 && (c.pcpu_freq_mhz > 0
            || c.ecpu_freq_mhz > 0)),
        c.ecpu_cores > 0 && c.ecpu_freq_mhz > 0 ==> spec_cluster_frequency_known(c),
        c.pcpu_cores > 0 && c.pcpu_freq_mhz > 0 ==> spec_cluster_frequency_known(c),
        c.pcpu_cores + c.ecpu_cores > 0 && c.ecpu_freq_mhz > 0 ==> spec_cluster_frequency_known(c),
        c.pcpu_cores + c.ecpu_cores > 0 && c.pcpu_freq_mhz > 0 ==> spec_cluster_frequency_known(c),
{
}

/// Which cluster is called P and which E does not matter: swapping the two
/// clusters leaves the decision as it is.
pub proof fn lemma_cluster_frequency_known_symmetric(c: ClusterFrequencies)
    ensures
        spec_cluster_frequency_known(c) == spec_cluster_frequency_known(
            ClusterFrequencies {
                pcpu_freq_mhz: c.ecpu_freq_mhz,
                ecpu_freq_mhz: c.pcpu_freq_mhz,
                pcpu_cores: c.ecpu_cores,
                ecpu_cores: c.pcpu_cores,
            },
        ),
{
}

impl ExtraReadings {
    /// Readings that hold nothing.
    pub fn empty() -> (r: ExtraReadings)
        ensures
            spec_readings_empty(r),
    {
        ExtraReadings {
            temperature_c: None,
            primary_sensor: None,
            temperatures: Vec::new(),
            frequency_mhz: None,
        }
    }

    /// The readings for one IOReport sample.
    ///
    /// A positive average CPU temperature becomes the reported temperature,
    /// with the primary sensor `CPU (IOReport avg)` and a first sensor entry
    /// `SoC` / `CPU avg`; without one no temperature is reported. A positive
    /// average GPU temperature is listed as the sensor entry `SoC` / `GPU avg`
    /// (after the CPU entry, when there is one). `cluster_average_mhz` (the
    /// cluster frequencies averaged with the core counts as weights) is
    /// reported when [`spec_cluster_frequency_known`] holds.
    pub fn from_metrics(
        cpu_temp_avg: Option<u32>,
        gpu_temp_avg: Option<u32>,
        clusters: &ClusterFrequencies,
        cluster_average_mhz: u32,
    ) -> (r: ExtraReadings)
        ensures
            spec_reading_positive(cpu_temp_avg) ==> {
                &&& r.temperature_c == cpu_temp_avg
                &&& opt_view(r.primary_sensor) == Some("CPU (IOReport avg)"@)
                &&& spec_sensor_is(r.temperatures@[0], "SoC"@, "CPU avg"@, cpu_temp_avg.unwrap())
            },
            !spec_reading_positive(cpu_temp_avg) ==> {
                &&& r.temperature_c is None
                &&& r.primary_sensor is None
            },
            r.temperatures@.len() == (if spec_reading_positive(cpu_temp_avg) { 1nat } else { 0nat }) + (
            if spec_reading_positive(gpu_temp_avg) {
                1nat
            } else {
                0nat
            }),
            spec_reading_positive(gpu_temp_avg) ==> spec_sensor_is(
                r.temperatures@[r.temperatures@.len() - 1],
                "SoC"@,
                "GPU avg"@,
                gpu_temp_avg.unwrap(),
            ),
            r.frequency_mhz == if spec_cluster_frequency_known(*clusters) {
                Some(cluster_average_mhz)
            } else {
                None
            },
            r.temperature_c is Some <==> r.primary_sensor is Some,
    {
        let mut r = ExtraReadings::empty();
        if let Some(cpu) = cpu_temp_avg {
            if is_positive(cpu) {
                r.temperature_c = Some(cpu);
                r.primary_sensor = Some("CPU (IOReport avg)".to_owned());
                r.temperatures.push(
                    TempSensor { chip: "SoC".to_owned(), label: "CPU avg".to_owned(), temp_c: cpu },
                );
            }
        }
        if let Some(gpu) = gpu_temp_avg {
            if is_positive(gpu) {
                r.temperatures.push(
                    TempSensor { chip: "SoC".to_owned(), label: "GPU avg".to_owned(), temp_c: gpu },
                );
            }
        }
        if cluster_frequency_known(clusters) {
            r.frequency_mhz = Some(cluster_average_mhz);
        }
        r
    }
}

/// Whether a package frequency can be reported (see
/// [`spec_cluster_frequency_known`]).
pub fn cluster_frequency_known(c: &ClusterFrequencies) -> (known: bool)
    ensures
        known == spec_cluster_frequency_known(*c),
{
    (c.pcpu_cores > 0 || c.ecpu_cores > 0) && (c.pcpu_freq_mhz > 0 || c.ecpu_freq_mhz > 0)
}

} // verus!
