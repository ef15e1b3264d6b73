//! The clocks the controller reads: a monotonic clock for countdown timers, and the wall
//! clock for the local (UTC+8) date and time of day. What the clocks read depends on when
//! they are read; what the controller makes of a reading is stated exactly by
//! `local_date_of_secs` and `local_time_of_secs`.
use chrono::Datelike;
use std::time::{Duration, Instant, SystemTime};
use vstd::prelude::*;

verus! {

#[verifier::external_type_specification]
#[verifier::external_body]
pub struct ExInstant(Instant);

#[verifier::external_type_specification]
#[verifier::external_body]
pub struct ExSystemTime(SystemTime);

/// `std::time::Instant::now`: the current reading of the monotonic clock.
#[verifier::external_body]
pub(crate) fn instant_now() -> Instant {
    Instant::now()
}

/// `std::time::Instant::elapsed`: the time since `start` (zero if `start` is later).
#[verifier::external_body]
pub(crate) fn instant_elapsed(start: &Instant) -> Duration {
    start.elapsed()
}

/// `std::time::Duration::as_secs`: the whole seconds of a duration.
#[verifier::external_body]
pub(crate) fn duration_as_secs(d: &Duration) -> u64 {
    d.as_secs()
}

/// `std::time::SystemTime::now`: the current reading of the system clock.
#[verifier::external_body]
pub(crate) fn system_now() -> SystemTime {
    SystemTime::now()
}

/// `std::time::SystemTime::duration_since` the Unix epoch: the time since 1970-01-01
/// 00:00:00 UTC, or `None` when the clock reads earlier than that.
#[verifier::external_body]
pub(crate) fn since_unix_epoch(t: &SystemTime) -> Option<Duration> {
    t.duration_since(SystemTime::UNIX_EPOCH).ok()
}

/// The UTC calendar date (year, month, day) `secs` seconds after the Unix epoch, as
/// `chrono::DateTime::from_timestamp` gives it; `None` when it is out of chrono's range.
pub uninterp spec fn civil_date(secs: i64) -> Option<(i32, u32, u32)>;

/// `chrono::DateTime::from_timestamp(secs, 0)`, read through `chrono::Datelike`'s `year`,
/// `month` (from 1 to 12) and `day` (from 1 to 31): the UTC date `secs` seconds after the
/// Unix epoch, or `None` when that is out of range.
#[verifier::external_body]
pub(crate) fn civil_date_of(secs: i64) -> (r: Option<(i32, u32, u32)>)
    ensures
        r == civil_date(secs),
        r matches Some(t) ==> 1 <= t.1 <= 12 && 1 <= t.2 <= 31,
{
    match chrono::DateTime::from_timestamp(secs, 0) {
        Some(t) => Some((t.year(), t.month(), t.day())),
        None => None,
    }
}

/// Seconds elapsed on the monotonic clock since `start`.
pub fn elapsed_secs(start: &Instant) -> u64 {
    let d = instant_elapsed(start);
    duration_as_secs(&d)
}

/// The local time zone's offset from UTC, in seconds: UTC+8 (Singapore).
pub const UTC_OFFSET_SECS: i64 = 28800;

/// A calendar date as the integer YYYYMMDD.
pub open spec fn spec_date_ymd(year: int, month: int, day: int) -> int {
    year * 10000 + month * 100 + day
}

/// A calendar date as the integer YYYYMMDD.
pub fn date_ymd(year: i32, month: u32, day: u32) -> (d: i64)
    requires
        1 <= month <= 12,
        1 <= day <= 31,
    ensures
        d == spec_date_ymd(year as int, month as int, day as int),
{
    year as i64 * 10000 + month as i64 * 100 + day as i64
}

/// The local date as YYYYMMDD at `secs` seconds after the Unix epoch: the calendar date
/// `secs + UTC_OFFSET_SECS` seconds after the epoch, or 0 when that is out of range.
pub open spec fn spec_local_date(secs: u64) -> int {
    if secs > i64::MAX - UTC_OFFSET_SECS {
        0
    } else {
        match civil_date((secs + UTC_OFFSET_SECS) as i64) {
            Some(t) => spec_date_ymd(t.0 as int, t.1 as int, t.2 as int),
            None => 0,
        }
    }
}

/// The local date as YYYYMMDD at `secs` seconds after the Unix epoch, or 0 when it is
/// beyond the calendar's range.
pub fn local_date_of_secs(secs: u64) -> (d: i64)
    ensures
        d == spec_local_date(secs),
{
    if secs > (i64::MAX - UTC_OFFSET_SECS) as u64 {
        return 0;
    }
    match civil_date_of(secs as i64 + UTC_OFFSET_SECS) {
        Some(t) => date_ymd(t.0, t.1, t.2),
        None => 0,
    }
}

/// The local wall-clock (hour, minute) at `secs` seconds after the Unix epoch.
pub open spec fn spec_local_time(secs: u64) -> (u32, u32) {
    let t = (secs + UTC_OFFSET_SECS) % 86400;
    ((t / 3600) as u32, ((t % 3600) / 60) as u32)
}

/// The local wall-clock hour (0..24) and minute (0..60) at `secs` seconds after the Unix
/// epoch.
pub fn local_time_of_secs(secs: u64) -> (r: (u32, u32))
    ensures
        r == spec_local_time(secs),
        r.0 < 24,
        r.1 < 60,
{
    let t: u128 = (secs as u128 + UTC_OFFSET_SECS as u128) % 86400;
    ((t / 3600) as u32, ((t % 3600) / 60) as u32)
}

/// Seconds since the Unix epoch on the system clock, or `None` when it reads earlier.
fn epoch_secs_now() -> (r: Option<u64>) {
    let now = system_now();
    match since_unix_epoch(&now) {
        Some(span) => Some(duration_as_secs(&span)),
        None => None,
    }
}

/// Today's local date as YYYYMMDD: `spec_local_date` of the system clock's reading, or 0
/// when the clock reads before 1970.
pub fn current_date_ymd() -> (d: i64)
    ensures
        d == 0 || exists|secs: u64| d == spec_local_date(secs),
{
    match epoch_secs_now() {
        Some(secs) => local_date_of_secs(secs),
        None => 0,
    }
}

/// The local wall-clock (hour, minute) now: `spec_local_time` of the system clock's
/// reading, or `None` when the clock reads before 1970.
pub fn current_local_time() -> (r: Option<(u32, u32)>)
    ensures
        r matches Some(t) ==> t.0 < 24 && t.1 < 60 && exists|secs: u64| t == spec_local_time(secs),
{
    match epoch_secs_now() {
        Some(secs) => Some(local_time_of_secs(secs)),
        None => None,
    }
}

/// The local wall-clock time is the UTC time of day shifted by eight hours: hours,
/// minutes and the seconds of the minute add up to the seconds since local midnight, with
/// the hour below 24 and the minute below 60.
pub proof fn law_local_time(secs: u64)
    ensures
        spec_local_time(secs).0 < 24,
        spec_local_time(secs).1 < 60,
        spec_local_time(secs).0 * 3600 + spec_local_time(secs).1 * 60 + (secs + 28800) % 60 == (secs
            + 28800) % 86400,
{
    let t = (secs + 28800) % 86400;
    vstd::arithmetic::div_mod::lemma_fundamental_div_mod(t, 3600);
    vstd::arithmetic::div_mod::lemma_fundamental_div_mod(t % 3600, 60);
    vstd::arithmetic::div_mod::lemma_mod_mod(secs + 28800, 60, 1440);
}

/// The local date is the UTC date eight hours later: the calendar date of `secs + 28800`
/// seconds after the epoch, as YYYYMMDD, wherever that fits.
pub proof fn law_local_date(secs: u64)
    ensures
        secs + 28800 <= i64::MAX ==> spec_local_date(secs) == match civil_date((secs + 28800) as i64) {
            Some(t) => t.0 * 10000 + t.1 * 100 + t.2,
            None => 0,
        },
        secs + 28800 > i64::MAX ==> spec_local_date(secs) == 0,
{
}

} // verus!
