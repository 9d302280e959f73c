//! How long each sampling stage waits.

use vstd::prelude::*;

verus! {

/// Shortest window between the two CPU-usage refreshes of one sample: below
/// it the per-core tick deltas come out as zero.
pub const MIN_SAMPLE_WINDOW_MS: u64 = 200;

/// Longest window between the two CPU-usage refreshes of one sample: above it
/// the window only eats into the IOReport window sampled next to it.
pub const MAX_SAMPLE_WINDOW_MS: u64 = 900;

/// Shortest IOReport sampling window.
pub const MIN_IOREPORT_WINDOW_MS: u64 = 400;

/// Longest IOReport sampling window.
pub const MAX_IOREPORT_WINDOW_MS: u64 = 2_000;

/// Shortest period between two snapshots.
pub const MIN_SAMPLER_PERIOD_MS: u64 = 200;

/// Nanoseconds in a millisecond.
pub const NANOS_PER_MILLI: u128 = 1_000_000;

/// `x` brought into `[lo, hi]`.
pub open spec fn clamp(x: int, lo: int, hi: int) -> int {
    if x < lo {
        lo
    } else if x > hi {
        hi
    } else {
        x
    }
}

/// The window between the two CPU-usage refreshes of a sample, for a
/// configured sampling interval: the interval brought into `[200, 900]` ms.
pub fn sample_window_ms(sample_interval_ms: u64) -> (window: u64)
    ensures
        window == clamp(sample_interval_ms as int, 200, 900),
        MIN_SAMPLE_WINDOW_MS <= window <= MAX_SAMPLE_WINDOW_MS,
        MIN_SAMPLE_WINDOW_MS <= sample_interval_ms <= MAX_SAMPLE_WINDOW_MS ==> window == sample_interval_ms,
{
    if sample_interval_ms < MIN_SAMPLE_WINDOW_MS {
        MIN_SAMPLE_WINDOW_MS
    } else if sample_interval_ms > MAX_SAMPLE_WINDOW_MS {
        MAX_SAMPLE_WINDOW_MS
    } else {
        sample_interval_ms
    }
}

/// The period between two snapshots, in milliseconds: the configured
/// interval, but never below 200 ms.
pub fn sampler_period_ms(interval_ms: u64) -> (period: u64)
    ensures
        period == if interval_ms < 200 { 200 } else { interval_ms },
        period >= MIN_SAMPLER_PERIOD_MS,
{
    if interval_ms < MIN_SAMPLER_PERIOD_MS {
        MIN_SAMPLER_PERIOD_MS
    } else {
        interval_ms
    }
}

/// The period between two snapshots, in nanoseconds.
pub fn sampler_period_nanos(interval_ms: u64) -> (period: u128)
    ensures
        period == (if interval_ms < 200 { 200 } else { interval_ms }) * 1_000_000,
{
    let ms = sampler_period_ms(interval_ms);
    (ms as u128) * NANOS_PER_MILLI
}

/// The period between two snapshots for a configured interval.
pub open spec fn spec_period_ms(interval_ms: u64) -> int {
    if interval_ms < 200 {
        200
    } else {
        interval_ms as int
    }
}

/// The IOReport sampling window for a configured sampling interval: the
/// interval brought into `[400, 2000]` ms.
pub fn ioreport_window_ms(sample_interval_ms: u64) -> (window: u32)
    ensures
        window == clamp(sample_interval_ms as int, 400, 2000),
        MIN_IOREPORT_WINDOW_MS <= window <= MAX_IOREPORT_WINDOW_MS,
        MIN_IOREPORT_WINDOW_MS <= sample_interval_ms <= MAX_IOREPORT_WINDOW_MS ==> window == sample_interval_ms,
{
    if sample_interval_ms < MIN_IOREPORT_WINDOW_MS {
        400
    } else if sample_interval_ms > MAX_IOREPORT_WINDOW_MS {
        2_000
    } else {
        sample_interval_ms as u32
    }
}

/// How long to wait before the second usage refresh, `elapsed_nanos` after
/// the first one, so that usage is measured over at least the window of
/// `window_ms`: what is left of the window, or nothing once it has passed.
/// The IOReport read runs inside this window, so the round takes the longer
/// of the two windows, not their sum.
pub fn usage_wait_nanos(window_ms: u64, elapsed_nanos: u128) -> (wait: u128)
    ensures
        wait == if elapsed_nanos < window_ms * 1_000_000 {
            window_ms * 1_000_000 - elapsed_nanos
        } else {
            0
        },
        elapsed_nanos + wait >= window_ms * 1_000_000,
        elapsed_nanos < window_ms * 1_000_000 ==> elapsed_nanos + wait == window_ms * 1_000_000,
{
    let window = (window_ms as u128) * NANOS_PER_MILLI;
    if elapsed_nanos < window {
        window - elapsed_nanos
    } else {
        0
    }
}

/// When the IOReport read runs inside the usage window, a round blocks for
/// the longer of the two windows. For intervals from 400 ms up that fits in
/// one period, and from 400 ms to 2000 ms it is the period exactly.
pub proof fn lemma_overlapped_windows_fit_period(interval_ms: u64)
    ensures
        interval_ms >= 400 ==> clamp(interval_ms as int, 200, 900) <= spec_period_ms(interval_ms)
            && clamp(interval_ms as int, 400, 2000) <= spec_period_ms(interval_ms),
        400 <= interval_ms <= 2000 ==> clamp(interval_ms as int, 400, 2000) == spec_period_ms(
            interval_ms,
        ),
        clamp(interval_ms as int, 200, 900) <= spec_period_ms(interval_ms),
{
}

} // verus!
