//! Timestamps: instants in UTC, as seconds and nanoseconds since the Unix
//! epoch, and the system clock that stamps conditions.
use vstd::prelude::*;
use chrono::{DateTime, Utc};
use std::time::{SystemTime, UNIX_EPOCH};

verus! {

/// An instant in UTC: whole seconds since the Unix epoch and the
/// nanoseconds past that second. The derived order is the order in time.
#[derive(Clone, Copy, Debug, Default, PartialEq, Eq, PartialOrd, Ord, Hash)]
pub struct Timestamp {
    pub secs: i64,
    pub nanos: u32,
}

#[verifier::external_type_specification]
#[verifier::external_body]
pub struct ExSystemTime(SystemTime);

/// `std::time::SystemTime::now`: the system clock's current reading.
/// Nothing is stated of it: it depends on the clock.
#[verifier::external_body]
fn system_time_now() -> (r: SystemTime) {
    SystemTime::now()
}

/// `SystemTime::duration_since(UNIX_EPOCH)`, as whole seconds and the
/// nanoseconds past them. Its documentation states that it fails when `t`
/// is earlier than the epoch, and that the nanoseconds of a `Duration` are
/// less than one billion; the reading itself is not stated.
#[verifier::external_body]
fn duration_since_epoch(t: &SystemTime) -> (r: Option<(u64, u32)>)
    ensures
        r matches Some(d) ==> d.1 < 1_000_000_000,
{
    match t.duration_since(UNIX_EPOCH) {
        Ok(d) => Some((d.as_secs(), d.subsec_nanos())),
        Err(_) => None,
    }
}

/// The instants that chrono's `DateTime<Utc>` can hold, by seconds since
/// the epoch and nanoseconds past the second: days from January 1 of year
/// -262143 to December 31 of year 262142, and fewer than a billion
/// nanoseconds, or fewer than two billion in the last second of a minute
/// (a leap second).
pub open spec fn utc_representable(secs: i64, nanos: u32) -> bool {
    &&& -8334601228800 <= secs <= 8210266876799
    &&& (nanos < 1_000_000_000 || (nanos < 2_000_000_000 && secs % 60 == 59))
}

/// `chrono::DateTime::<Utc>::from_timestamp`: the instant `secs` seconds
/// and `nanos` nanoseconds after the epoch, read back through `timestamp`
/// and `timestamp_subsec_nanos`. It is none on out-of-range seconds or
/// invalid nanoseconds (its source: the day must lie within `NaiveDate`'s
/// range, and `NaiveTime::from_num_seconds_from_midnight_opt` admits
/// nanoseconds of two billion or more never, of a billion or more only in
/// the 59th second), and it round-trips, as its documentation states, so a
/// result holds the arguments unchanged.
#[verifier::external_body]
fn utc_from_timestamp(secs: i64, nanos: u32) -> (r: Option<Timestamp>)
    ensures
        r == if utc_representable(secs, nanos) {
            Some(Timestamp { secs, nanos })
        } else {
            None::<Timestamp>
        },
{
    match DateTime::<Utc>::from_timestamp(secs, nanos) {
        Some(t) => Some(Timestamp { secs: t.timestamp(), nanos: t.timestamp_subsec_nanos() }),
        None => None,
    }
}

/// The UTC instant of a clock reading, given as whole seconds and
/// nanoseconds since the Unix epoch (none for a reading before the epoch):
/// none when it lies past what a UTC date and time can hold.
pub open spec fn utc_of_reading(d: Option<(u64, u32)>) -> Option<Timestamp> {
    match d {
        Some((s, n)) => if s <= i64::MAX && utc_representable(s as i64, n) {
            Some(Timestamp { secs: s as i64, nanos: n })
        } else {
            None
        },
        None => None,
    }
}

/// The UTC instant of a clock reading.
pub fn utc_from_reading(d: Option<(u64, u32)>) -> (r: Option<Timestamp>)
    ensures
        r == utc_of_reading(d),
{
    match d {
        Some((secs, nanos)) => {
            if secs <= 9223372036854775807u64 {
                utc_from_timestamp(secs as i64, nanos)
            } else {
                None
            }
        },
        None => None,
    }
}

/// The current time of the system clock as a UTC instant: the instant of
/// the clock's reading, none when the clock reads before the Unix epoch or
/// past what a UTC date and time can hold.
pub fn utc_now() -> (r: Option<Timestamp>)
    ensures
        r matches Some(t) ==> 0 <= t.secs && t.nanos < 1_000_000_000 && utc_representable(
            t.secs,
            t.nanos,
        ),
{
    let now = system_time_now();
    let reading = duration_since_epoch(&now);
    utc_from_reading(reading)
}

} // verus!
