use vstd::prelude::*;
use chrono::{Datelike, TimeZone, Timelike};

verus! {

/// A civil date and time in Coordinated Universal Time, held as plain
/// fields so that contracts can speak about it directly.
#[derive(PartialEq, Eq, Structural, Clone, Copy, Debug)]
pub struct DateTime {
    pub year: u16,
    pub month: u8,
    pub day: u8,
    pub hour: u8,
    pub minute: u8,
    pub second: u8,
}

/// The number of seconds between the epoch and the civil date-time `dt`,
/// or nothing when the fields do not name a real calendar instant.
pub uninterp spec fn civil_epoch(dt: DateTime) -> Option<i64>;

/// The civil date-time that lies `ts` seconds after the epoch, or nothing
/// when `ts` is outside the representable calendar range.
pub uninterp spec fn civil_of_epoch(ts: i64) -> Option<DateTime>;

/// Relies on chrono's `Utc::with_ymd_and_hms` and `DateTime::timestamp`:
/// the epoch second count of a civil date-time depends on its fields alone.
#[verifier::external_body]
pub fn civil_to_epoch(dt: DateTime) -> (r: Option<i64>)
    ensures
        r == civil_epoch(dt),
{
    let base = chrono::Utc.with_ymd_and_hms(
        dt.year as i32,
        dt.month as u32,
        dt.day as u32,
        dt.hour as u32,
        dt.minute as u32,
        dt.second as u32,
    );
    match base.single() {
        Some(t) => Some(t.timestamp()),
        None => None,
    }
}

/// Relies on chrono's `DateTime::from_timestamp`: the civil date-time of an
/// epoch second count depends on that count alone.
#[verifier::external_body]
pub fn civil_from_epoch(ts: i64) -> (r: Option<DateTime>)
    ensures
        r == civil_of_epoch(ts),
{
    match chrono::DateTime::from_timestamp(ts, 0) {
        Some(t) => Some(
            DateTime {
                year: t.year() as u16,
                month: t.month() as u8,
                day: t.day() as u8,
                hour: t.hour() as u8,
                minute: t.minute() as u8,
                second: t.second() as u8,
            },
        ),
        None => None,
    }
}

/// The civil date-time `secs` seconds after `dt`: what a caller gets from
/// shifting `dt` through the epoch, stated here once so that every
/// forecast-time contract can reuse it.
pub open spec fn civil_shifted(dt: DateTime, secs: u64) -> Option<DateTime> {
    match civil_epoch(dt) {
        None => None,
        Some(ts) => if ts + secs <= i64::MAX {
            civil_of_epoch((ts + secs) as i64)
        } else {
            None
        },
    }
}

/// Shifts a civil date-time forward by a number of seconds, failing when
/// the start is not a real instant or the shift leaves the calendar range.
pub fn shift_civil(dt: DateTime, secs: u64) -> (r: Option<DateTime>)
    ensures
        r == civil_shifted(dt, secs),
{
    match civil_to_epoch(dt) {
        None => None,
        Some(ts) => {
            let wide: i128 = (ts as i128) + (secs as i128);
            if wide <= i64::MAX as i128 {
                civil_from_epoch(wide as i64)
            } else {
                None
            }
        },
    }
}

} // verus!
