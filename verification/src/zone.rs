//! Trusted boundary to the calendar/time-zone collaborator.
//!
//! The zone database is compiled into `chrono_tz`, so for a fixed build both
//! operations below are functions of their arguments alone; their results are
//! given names (`civil_at`, `resolve_at`) that the engine's contracts use.

use vstd::prelude::*;

use crate::civil::{civil_wf, CivilTime, CivilView};
use chrono::{Datelike, TimeZone, Timelike};
use chrono_tz::Tz;

verus! {

#[verifier::external_type_specification]
#[verifier::external_body]
pub struct ExTz(Tz);

/// Timestamps (seconds since the Unix epoch) that the engine accepts; the
/// calendar collaborator represents every instant in this range.
pub const EPOCH_BOUND: i64 = 8_000_000_000_000;

/// Every timestamp the calendar collaborator can hand back lies within this
/// bound (its calendar stops near year 262143 in either direction).
pub const RESOLVED_BOUND: i64 = 8_400_000_000_000;

/// The civil fields of the instant `epoch_seconds` as read in `zone`.
pub uninterp spec fn civil_at(epoch_seconds: int, zone: Tz) -> CivilView;

/// The timestamp, if any, at which the given civil time occurs in `zone`:
/// `None` for an invalid date or a time skipped by a clock change, and for
/// a civil time that occurs twice the earlier of the two timestamps.
pub uninterp spec fn resolve_at(
    zone: Tz,
    year: int,
    month: int,
    day: int,
    hour: int,
    minute: int,
    second: int,
) -> Option<int>;

/// The mathematical value of a resolved timestamp.
pub open spec fn opt_epoch_view(r: Option<i64>) -> Option<int> {
    match r {
        Some(e) => Some(e as int),
        None => None,
    }
}

/// Relies on chrono's `DateTime::with_timezone` for `chrono_tz::Tz`
/// (`DateTime::from_timestamp` builds the instant, the `Datelike` and
/// `Timelike` accessors read the fields): the civil representation of an
/// in-range instant in a zone, determined by the zone's embedded table;
/// the accessors document the field ranges stated here.
#[verifier::external_body]
pub(crate) fn civil_in_zone(epoch_seconds: i64, zone: &Tz) -> (c: CivilTime)
    requires
        -EPOCH_BOUND <= epoch_seconds <= EPOCH_BOUND,
    ensures
        c@ == civil_at(epoch_seconds as int, *zone),
        civil_wf(c@),
{
    let dt = chrono::DateTime::from_timestamp(epoch_seconds, 0).unwrap().with_timezone(zone);
    CivilTime {
        year: dt.year() as i64,
        month: dt.month() as i64,
        day: dt.day() as i64,
        hour: dt.hour() as i64,
        minute: dt.minute() as i64,
        second: dt.second() as i64,
    }
}

/// Relies on chrono's `TimeZone::with_ymd_and_hms` for `chrono_tz::Tz`: the
/// result comes from the zone's embedded table and the given fields alone;
/// it is `None` for an invalid date or a skipped civil time, and for an
/// ambiguous one the earliest matching instant, whose timestamp lies within
/// the collaborator's calendar range.
#[verifier::external_body]
pub(crate) fn resolve_civil(
    zone: &Tz,
    year: i64,
    month: i64,
    day: i64,
    hour: i64,
    minute: i64,
    second: i64,
) -> (r: Option<i64>)
    requires
        -262_145 <= year <= 262_145,
        1 <= month <= 12,
        1 <= day <= 4_294_967_295,
        0 <= hour <= 23,
        0 <= minute <= 59,
        0 <= second <= 59,
    ensures
        opt_epoch_view(r) == resolve_at(
            *zone,
            year as int,
            month as int,
            day as int,
            hour as int,
            minute as int,
            second as int,
        ),
        r matches Some(e) ==> -RESOLVED_BOUND <= e <= RESOLVED_BOUND,
{
    match zone.with_ymd_and_hms(year as i32, month as u32, day as u32, hour as u32, minute as u32, second as u32) {
        chrono::LocalResult::Single(dt) => Some(dt.timestamp()),
        chrono::LocalResult::Ambiguous(dt, _) => Some(dt.timestamp()),
        chrono::LocalResult::None => None,
    }
}

} // verus!
