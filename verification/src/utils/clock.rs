//! Readings of the system clock and of the monotonic clock.

use std::time::{Duration, Instant, SystemTime, UNIX_EPOCH};
use vstd::prelude::*;

verus! {

/// `std::time::Instant`, carried through verified code as an opaque value.
#[verifier::external_type_specification]
#[verifier::external_body]
pub struct ExInstant(Instant);

/// `std::time::SystemTime`, carried through verified code as an opaque value.
#[verifier::external_type_specification]
#[verifier::external_body]
pub struct ExSystemTime(SystemTime);

/// `SystemTime::now()`: a reading of the system clock. Nothing is claimed of it.
#[verifier::external_body]
fn system_time_now() -> SystemTime {
    SystemTime::now()
}

/// `time.duration_since(UNIX_EPOCH)`, its `Ok` as `Some` and its `Err` (a
/// time earlier than the epoch) as `None`. Nothing is claimed of the
/// duration: it depends on the clock reading.
#[verifier::external_body]
fn since_unix_epoch(time: &SystemTime) -> Option<Duration> {
    match time.duration_since(UNIX_EPOCH) {
        Ok(elapsed) => Some(elapsed),
        Err(_) => None,
    }
}

/// `duration.subsec_millis()`: the fractional part of a duration in whole
/// milliseconds. Claimed, as std documents it: less than one thousand.
#[verifier::external_body]
fn fraction_millis(duration: &Duration) -> (ms: u32)
    ensures
        ms < 1000,
{
    duration.subsec_millis()
}

/// `duration.as_secs()`: the whole seconds of a duration. `Duration` is
/// opaque here, so nothing is claimed of the value.
#[verifier::external_body]
fn whole_secs(duration: &Duration) -> u64 {
    duration.as_secs()
}

/// `duration.as_nanos()`: the nanoseconds of a duration. `Duration` is
/// opaque here, so nothing is claimed of the value.
#[verifier::external_body]
fn whole_nanos(duration: &Duration) -> u128 {
    duration.as_nanos()
}

/// `Instant::now()`: a reading of the monotonic clock. Nothing is claimed of it.
#[verifier::external_body]
pub(crate) fn instant_now() -> Instant {
    Instant::now()
}

/// `since.elapsed()`: the time from `since` to now on the monotonic clock.
/// Nothing is claimed of it.
#[verifier::external_body]
fn elapsed_since(since: &Instant) -> Duration {
    since.elapsed()
}

/// Nanoseconds from `since` to now on the monotonic clock.
pub(crate) fn nanos_since(since: &Instant) -> u128 {
    let elapsed = elapsed_since(since);
    whole_nanos(&elapsed)
}

/// One reading of the system clock since the Unix epoch: its whole seconds
/// and the whole milliseconds past them, or `None` when the clock reads
/// earlier than the epoch.
fn epoch_reading() -> (reading: Option<(u64, u32)>)
    ensures
        match reading {
            Some((_, ms)) => ms < 1000,
            None => true,
        },
{
    let now = system_time_now();
    match since_unix_epoch(&now) {
        Some(elapsed) => Some((whole_secs(&elapsed), fraction_millis(&elapsed))),
        None => None,
    }
}

/// The whole milliseconds of a reading: its seconds times 1000 plus the
/// milliseconds past them.
pub fn reading_millis(secs: u64, fraction_ms: u32) -> (ms: u128)
    requires
        fraction_ms < 1000,
    ensures
        ms == secs * 1000 + fraction_ms,
{
    secs as u128 * 1000 + fraction_ms as u128
}

/// The timestamp for a reading of whole seconds since the epoch.
pub open spec fn secs_timestamp(reading: Option<u64>) -> i64 {
    match reading {
        Some(secs) => secs as i64,
        None => 0,
    }
}

/// The timestamp for a reading of whole milliseconds since the epoch.
pub open spec fn millis_timestamp(reading: Option<u128>) -> i64 {
    match reading {
        Some(ms) => ms as i64,
        None => 0,
    }
}

/// The timestamp for a reading of whole seconds since the epoch: the
/// reading truncated to `i64` as `as` does, or 0 for a clock that reads
/// earlier than the epoch.
pub fn timestamp_from_secs(reading: Option<u64>) -> (t: i64)
    ensures
        t == secs_timestamp(reading),
{
    match reading {
        Some(secs) => secs as i64,
        None => 0,
    }
}

/// The timestamp for a reading of whole milliseconds since the epoch: the
/// reading truncated to `i64` as `as` does, or 0 for a clock that reads
/// earlier than the epoch.
pub fn timestamp_from_millis(reading: Option<u128>) -> (t: i64)
    ensures
        t == millis_timestamp(reading),
{
    match reading {
        Some(ms) => ms as i64,
        None => 0,
    }
}

/// The second and millisecond timestamps of one clock reading agree: the
/// seconds are the milliseconds divided by 1000, rounding down, as long as
/// the milliseconds fit in an `i64`.
pub proof fn lemma_timestamps_agree(secs: u64, fraction_ms: u32)
    requires
        fraction_ms < 1000,
        secs * 1000 + fraction_ms <= i64::MAX,
    ensures
        secs_timestamp(Some(secs)) == secs,
        millis_timestamp(Some((secs * 1000 + fraction_ms) as u128)) == secs * 1000 + fraction_ms,
        millis_timestamp(Some((secs * 1000 + fraction_ms) as u128)) / 1000 == secs_timestamp(
            Some(secs),
        ),
{
    assert((secs * 1000 + fraction_ms) / 1000 == secs) by (nonlinear_arith)
        requires
            fraction_ms < 1000,
    ;
}

/// Current Unix time in seconds, truncated to `i64` as `as` does.
/// A clock that reads earlier than the epoch gives 0.
pub fn current_timestamp_secs() -> i64 {
    match epoch_reading() {
        Some((secs, _)) => timestamp_from_secs(Some(secs)),
        None => timestamp_from_secs(None),
    }
}

/// Current Unix time in milliseconds, truncated to `i64` as `as` does.
/// A clock that reads earlier than the epoch gives 0.
pub fn current_timestamp_ms() -> i64 {
    match epoch_reading() {
        Some((secs, fraction_ms)) => timestamp_from_millis(Some(reading_millis(secs, fraction_ms))),
        None => timestamp_from_millis(None),
    }
}

} // verus!
