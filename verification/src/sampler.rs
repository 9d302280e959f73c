//! Building snapshots, and the decisions of the sampling loop.
//!
//! The loop itself (read the counters, publish the snapshot, sleep) runs in
//! the daemon; after each publication it asks [`after_publish`] what to do.

use vstd::prelude::*;
use crate::f32_bits::POSITIVE_ZERO;
use crate::model::{Cpu, Snapshot};
use std::time::{Duration, SystemTime, UNIX_EPOCH};

verus! {

/// `std::time::SystemTime`, declared so that the clock's reading can be
/// carried from one call to the next.
#[verifier::external_type_specification]
#[verifier::external_body]
pub struct ExSystemTime(SystemTime);

/// `std::time::SystemTime::now`: the system clock's current reading. It
/// depends on the clock, so nothing is stated of it.
#[verifier::external_body]
fn system_time_now() -> (now: SystemTime) {
    SystemTime::now()
}

/// `std::time::SystemTime::duration_since` with `UNIX_EPOCH`: how long after
/// the Unix epoch `t` lies, or `None` when it lies before it. Nothing more is
/// stated: `t` is opaque here.
#[verifier::external_body]
fn since_unix_epoch(t: &SystemTime) -> (elapsed: Option<Duration>) {
    t.duration_since(UNIX_EPOCH).ok()
}

/// `std::time::Duration::as_secs`: the whole seconds of `d`. Nothing is
/// stated: `d` is opaque here.
#[verifier::external_body]
fn whole_seconds(d: &Duration) -> (secs: u64) {
    d.as_secs()
}

/// `std::time::Duration::subsec_nanos`: the fractional part of `d` in
/// nanoseconds, which std documents as always less than one billion.
#[verifier::external_body]
fn fraction_nanos(d: &Duration) -> (nanos: u32)
    ensures
        nanos < 1_000_000_000,
{
    d.subsec_nanos()
}

/// Earliest Unix time chrono represents: `-262143-01-01T00:00:00Z`.
pub const UTC_MIN_UNIX_SECS: i64 = -8_334_601_228_800;

/// Latest whole Unix second chrono represents: `262142-12-31T23:59:59Z`.
pub const UTC_MAX_UNIX_SECS: i64 = 8_210_266_876_799;

/// Unix time of `0000-01-01T00:00:00Z`.
pub const YEAR_0_UNIX_SECS: i64 = -62_167_219_200;

/// Unix time of `9999-12-31T23:59:59Z`.
pub const YEAR_9999_END_UNIX_SECS: i64 = 253_402_300_799;

/// The text that chrono's `DateTime::<Utc>::to_rfc3339` gives for the UTC time
/// `secs` seconds and `nanos` nanoseconds after the Unix epoch.
pub uninterp spec fn spec_rfc3339_utc(secs: int, nanos: int) -> Seq<char>;

/// chrono's `DateTime::from_timestamp` accepts the time: the seconds lie in
/// its year range, and the nanoseconds are under one second, or under two on
/// the last second of a minute (a leap second).
pub open spec fn spec_utc_representable(secs: int, nanos: int) -> bool {
    &&& UTC_MIN_UNIX_SECS <= secs <= UTC_MAX_UNIX_SECS
    &&& (nanos < 1_000_000_000 || (nanos < 2_000_000_000 && secs % 60 == 59))
}

/// Length of the fraction that `to_rfc3339` writes for these nanoseconds: none
/// for a whole second, else a dot and 3, 6 or 9 digits.
pub open spec fn spec_fraction_len(nanos: int) -> nat {
    let n = nanos % 1_000_000_000;
    if n == 0 {
        0
    } else if n % 1_000_000 == 0 {
        4
    } else if n % 1_000 == 0 {
        7
    } else {
        10
    }
}

/// The shape every such stamp has: at least `YYYY-MM-DDTHH:MM:SS+00:00`
/// long, and ending in the UTC offset `+00:00`.
pub open spec fn spec_utc_stamp_shape(t: Seq<char>) -> bool {
    &&& t.len() >= 25
    &&& t.subrange(t.len() - 6, t.len() as int) == "+00:00"@
}

/// `chrono::DateTime::from_timestamp` followed by `to_rfc3339`: the RFC 3339
/// text of a UTC time, `None` when chrono cannot represent that time. The
/// text ends in `+00:00`; for the years 0 to 9999 it is
/// `YYYY-MM-DDTHH:MM:SS`, the fraction and `+00:00`.
#[verifier::external_body]
fn rfc3339_utc(secs: i64, nanos: u32) -> (text: Option<String>)
    ensures
        text is Some <==> spec_utc_representable(secs as int, nanos as int),
        text matches Some(t) ==> t@ == spec_rfc3339_utc(secs as int, nanos as int),
        text matches Some(t) ==> spec_utc_stamp_shape(t@),
        text matches Some(t) ==> (YEAR_0_UNIX_SECS <= secs <= YEAR_9999_END_UNIX_SECS ==> t@.len()
            == 25 + spec_fraction_len(nanos as int)),
{
    match chrono::DateTime::from_timestamp(secs, nanos) {
        Some(time) => Some(time.to_rfc3339()),
        None => None,
    }
}

/// A `cpu` object that holds only the model: no readings, zero usage, zero
/// logical cores, empty lists. Served before the first sample lands, and in
/// place of a sample that failed.
pub fn empty_cpu(model: Option<String>) -> (cpu: Cpu)
    ensures
        cpu.model == model,
        cpu.vendor is None,
        cpu.logical_cores == 0,
        cpu.physical_cores is None,
        cpu.usage_percent == POSITIVE_ZERO,
        cpu.per_core_usage@.len() == 0,
        cpu.temperature_c is None,
        cpu.primary_sensor is None,
        cpu.temperatures@.len() == 0,
        cpu.frequency_mhz is None,
        cpu.load_average is None,
        cpu.uptime_s is None,
        cpu.processes@.len() == 0,
{
    Cpu {
        model,
        vendor: None,
        logical_cores: 0,
        physical_cores: None,
        usage_percent: POSITIVE_ZERO,
        per_core_usage: Vec::new(),
        temperature_c: None,
        primary_sensor: None,
        temperatures: Vec::new(),
        frequency_mhz: None,
        load_average: None,
        uptime_s: None,
        processes: Vec::new(),
    }
}

/// The snapshot of `cpu` on `host`, taken at `timestamp`.
pub fn snapshot_at(timestamp: String, host: &str, kernel: Option<String>, cpu: Cpu) -> (snap: Snapshot)
    ensures
        snap.timestamp == timestamp,
        snap.host@ == host@,
        snap.kernel == kernel,
        snap.cpu == cpu,
{
    Snapshot { timestamp, host: host.to_owned(), kernel, cpu }
}

/// The snapshot of `cpu` on `host`, stamped with the UTC time `unix_secs`
/// seconds and `nanos` nanoseconds after the Unix epoch; `None` when chrono
/// cannot represent that time.
pub fn snapshot_at_unix_time(
    unix_secs: u64,
    nanos: u32,
    host: &str,
    kernel: Option<String>,
    cpu: Cpu,
) -> (snap: Option<Snapshot>)
    ensures
        snap is Some <==> spec_utc_representable(unix_secs as int, nanos as int),
        snap matches Some(s) ==> {
            &&& s.timestamp@ == spec_rfc3339_utc(unix_secs as int, nanos as int)
            &&& spec_utc_stamp_shape(s.timestamp@)
            &&& unix_secs <= YEAR_9999_END_UNIX_SECS ==> s.timestamp@.len() == 25 + spec_fraction_len(
                nanos as int,
            )
            &&& s.host@ == host@
            &&& s.kernel == kernel
            &&& s.cpu == cpu
        },
{
    if unix_secs > UTC_MAX_UNIX_SECS as u64 {
        return None;
    }
    match rfc3339_utc(unix_secs as i64, nanos) {
        Some(timestamp) => Some(snapshot_at(timestamp, host, kernel, cpu)),
        None => None,
    }
}

/// The snapshot of `cpu` on `host`, stamped with the current UTC time.
///
/// It never fails: a clock that reads before the Unix epoch is stamped as the
/// epoch, and one that reads past the last second chrono represents is
/// stamped as that second. Whatever the host, kernel and cpu, the result is
/// `Some`.
pub fn make_snapshot(host: &str, kernel: Option<String>, cpu: Cpu) -> (snap: Option<Snapshot>)
    ensures
        snap is Some,
        snap matches Some(s) ==> {
            &&& s.host@ == host@
            &&& s.kernel == kernel
            &&& s.cpu == cpu
            &&& spec_utc_stamp_shape(s.timestamp@)
            &&& exists|secs: u64, nanos: u32|
                secs <= UTC_MAX_UNIX_SECS && nanos < 1_000_000_000 && s.timestamp@
                    == #[trigger] spec_rfc3339_utc(secs as int, nanos as int)
        },
{
    let now = system_time_now();
    let (secs, nanos) = match since_unix_epoch(&now) {
        Some(elapsed) => (whole_seconds(&elapsed), fraction_nanos(&elapsed)),
        None => (0u64, 0u32),
    };
    let secs: u64 = if secs > UTC_MAX_UNIX_SECS as u64 {
        UTC_MAX_UNIX_SECS as u64
    } else {
        secs
    };
    snapshot_at_unix_time(secs, nanos, host, kernel, cpu)
}

/// Every clock reading from the Unix epoch to the last second chrono
/// represents, with nanoseconds under one second, can be stamped, whatever
/// the host, kernel and cpu of the snapshot.
pub proof fn lemma_readings_after_epoch_are_stamped(secs: u64, nanos: u32)
    requires
        secs <= UTC_MAX_UNIX_SECS,
        nanos < 1_000_000_000,
    ensures
        spec_utc_representable(secs as int, nanos as int),
{
}

/// How the attempt to publish a round's snapshot went.
#[derive(Clone, Copy, Debug, PartialEq, Eq)]
pub enum Publication {
    /// The snapshot was handed to the listeners.
    Sent,
    /// The clock could not stamp a snapshot, so this round has none.
    Unstamped,
    /// The channel is closed: nobody listens any more.
    Closed,
}

/// What the sampling loop does after trying to publish a snapshot.
#[derive(Clone, Copy, Debug, PartialEq, Eq)]
pub enum SamplerAction {
    /// Nobody listens any more: the loop ends.
    Stop,
    /// The period is already over: sample again at once.
    SampleNow,
    /// Sleep this many nanoseconds, then sample again.
    SleepThenSample(u128),
}

/// The loop's decision after a publication attempt, `elapsed_nanos` after
/// the round started, for a period of `period_nanos`: stop when the channel
/// is closed, otherwise sleep out what is left of the period, so that rounds
/// start one period apart.
pub fn after_publish(publication: Publication, elapsed_nanos: u128, period_nanos: u128) -> (action: SamplerAction)
    ensures
        publication == Publication::Closed ==> action == SamplerAction::Stop,
        publication != Publication::Closed && elapsed_nanos < period_nanos ==> action
            == SamplerAction::SleepThenSample((period_nanos - elapsed_nanos) as u128),
        publication != Publication::Closed && elapsed_nanos >= period_nanos ==> action
            == SamplerAction::SampleNow,
        action matches SamplerAction::SleepThenSample(s) ==> s > 0 && elapsed_nanos + s == period_nanos,
{
    match publication {
        Publication::Closed => SamplerAction::Stop,
        _ => if elapsed_nanos < period_nanos {
            SamplerAction::SleepThenSample(period_nanos - elapsed_nanos)
        } else {
            SamplerAction::SampleNow
        },
    }
}

} // verus!
