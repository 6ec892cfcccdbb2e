//! The calendar-difference engine.
//!
//! `calculate` orders two zoned instants, derives the flat totals and the
//! DST-safe time-of-day remainder from the physical duration alone, and
//! decomposes the rest of the gap into calendar components with month/day
//! borrowing measured against the civil calendar of the earlier instant's
//! attached zone.

use vstd::prelude::*;

use crate::civil::{zero_breakdown, Breakdown, CivilView};
use crate::zone::{
    civil_at, civil_in_zone, opt_epoch_view, resolve_at, resolve_civil, EPOCH_BOUND,
    RESOLVED_BOUND,
};
use chrono_tz::Tz;

pub use crate::civil::DateComponent;

verus! {

/// A point on the physical timeline tagged with the calendar zone in which
/// its civil fields are to be read.
#[derive(Clone, Copy)]
pub struct ZonedInstant {
    /// Seconds since the Unix epoch, independent of any zone.
    pub epoch_seconds: i64,
    /// The attached calendar zone.
    pub zone: Tz,
}

impl ZonedInstant {
    /// The instant lies in the range the calendar collaborator represents.
    pub open spec fn wf(self) -> bool {
        -EPOCH_BOUND <= self.epoch_seconds <= EPOCH_BOUND
    }

    /// Tags a timestamp (seconds since the Unix epoch) with a calendar zone;
    /// `None` iff the timestamp lies outside the representable range.
    pub fn new(epoch_seconds: i64, zone: Tz) -> (r: Option<ZonedInstant>)
        ensures
            match r {
                Some(z) => z.wf() && z.epoch_seconds == epoch_seconds && z.zone == zone,
                None => !(-EPOCH_BOUND <= epoch_seconds <= EPOCH_BOUND),
            },
    {
        if -EPOCH_BOUND <= epoch_seconds && epoch_seconds <= EPOCH_BOUND {
            Some(ZonedInstant { epoch_seconds, zone })
        } else {
            None
        }
    }
}

/// The timestamp of the latest day at or before `day` that exists in the
/// given month and resolves in `zone` with the given time of day; `None` if
/// no day of the month does.
pub open spec fn spec_nearest(
    zone: Tz,
    year: int,
    month: int,
    day: int,
    hour: int,
    minute: int,
    second: int,
) -> Option<int>
    decreases day,
{
    if day < 1 {
        None
    } else {
        match resolve_at(zone, year, month, day, hour, minute, second) {
            Some(e) => Some(e),
            None => spec_nearest(zone, year, month, day - 1, hour, minute, second),
        }
    }
}

/// The authoritative day count of the gap: the number of whole physical days
/// between the interim instant (the start's day-of-month and time of day,
/// placed in the target month) and the end; if no day of the target month
/// resolves, the civil day-of-month difference, floored at zero.
pub open spec fn spec_day_count(
    zone: Tz,
    target_year: int,
    target_month: int,
    sc: CivilView,
    ec: CivilView,
    end_epoch: int,
) -> int {
    match spec_nearest(zone, target_year, target_month, sc.day, sc.hour, sc.minute, sc.second) {
        Some(e) => if e <= end_epoch {
            (end_epoch - e) / 86400
        } else {
            0
        },
        None => if ec.day >= sc.day {
            ec.day - sc.day
        } else {
            0
        },
    }
}

/// The calendar half of a breakdown: years, months, and the day count with
/// its week split.
pub ghost struct CalendarPart {
    pub year: int,
    pub month: int,
    pub week: int,
    pub modulo_days: int,
    pub day: int,
}

/// Calendar decomposition of the gap between the civil times `sc` (start)
/// and `ec` (end, read in the start's zone): if the end's day-of-month is
/// smaller than the start's, one month is borrowed and the day count is
/// measured in the month before the end's; a negative month difference
/// borrows one year.
pub open spec fn spec_calendar(zone: Tz, sc: CivilView, ec: CivilView, end_epoch: int) -> CalendarPart {
    let borrow = ec.day < sc.day;
    let target_year = if borrow && ec.month == 1 {
        ec.year - 1
    } else {
        ec.year
    };
    let target_month = if borrow {
        if ec.month == 1 {
            12int
        } else {
            ec.month - 1
        }
    } else {
        ec.month
    };
    let day_count = spec_day_count(zone, target_year, target_month, sc, ec, end_epoch);
    let months = ec.month - sc.month - (if borrow {
        1int
    } else {
        0int
    });
    let years = ec.year - sc.year;
    let months_adj = if months < 0 {
        months + 12
    } else {
        months
    };
    let years_adj = if months < 0 {
        years - 1
    } else {
        years
    };
    CalendarPart {
        year: if years_adj < 0 {
            0int
        } else {
            years_adj
        },
        month: months_adj,
        week: day_count / 7,
        modulo_days: day_count % 7,
        day: day_count,
    }
}

/// The full breakdown of the gap between two zoned instants: ordering and
/// `invert` from the timestamps, flat totals and time of day from the
/// physical duration, calendar components from `spec_calendar` in the
/// earlier instant's attached zone.
pub open spec fn spec_calculate(from: ZonedInstant, to: ZonedInstant) -> Breakdown {
    if from.epoch_seconds == to.epoch_seconds {
        zero_breakdown()
    } else {
        let invert = from.epoch_seconds > to.epoch_seconds;
        let start = if invert {
            to
        } else {
            from
        };
        let end = if invert {
            from
        } else {
            to
        };
        let delta = end.epoch_seconds - start.epoch_seconds;
        let sc = civil_at(start.epoch_seconds as int, start.zone);
        let ec = civil_at(end.epoch_seconds as int, start.zone);
        let cal = spec_calendar(start.zone, sc, ec, end.epoch_seconds as int);
        Breakdown {
            year: cal.year,
            month: cal.month,
            week: cal.week,
            modulo_days: cal.modulo_days,
            day: cal.day,
            hour: (delta / 3600) % 24,
            minute: (delta / 60) % 60,
            second: delta % 60,
            interval_seconds: delta,
            interval_minutes: delta / 60,
            interval_hours: delta / 3600,
            interval_days: delta / 86400,
            invert,
        }
    }
}

/// Given a date specified by year / month / day where the `day` may not
/// exist in that month (e.g. the 30th of February), return the timestamp of
/// the nearest valid day at or before it, keeping the time of day; `None`
/// if no day of the month resolves in the zone.
pub fn get_nearest_day_before(
    zone: &Tz,
    year: i64,
    month: i64,
    day: i64,
    hour: i64,
    minute: i64,
    second: i64,
) -> (r: Option<i64>)
    requires
        -262_145 <= year <= 262_145,
        1 <= month <= 12,
        1 <= day <= 4_294_967_295,
        0 <= hour <= 23,
        0 <= minute <= 59,
        0 <= second <= 59,
    ensures
        opt_epoch_view(r) == spec_nearest(
            *zone,
            year as int,
            month as int,
            day as int,
            hour as int,
            minute as int,
            second as int,
        ),
        r matches Some(e) ==> -RESOLVED_BOUND <= e <= RESOLVED_BOUND,
{
    let mut d = day;
    loop
        invariant
            0 <= d <= day,
            day <= 4_294_967_295,
            -262_145 <= year <= 262_145,
            1 <= month <= 12,
            0 <= hour <= 23,
            0 <= minute <= 59,
            0 <= second <= 59,
            spec_nearest(
                *zone,
                year as int,
                month as int,
                day as int,
                hour as int,
                minute as int,
                second as int,
            ) == spec_nearest(
                *zone,
                year as int,
                month as int,
                d as int,
                hour as int,
                minute as int,
                second as int,
            ),
        decreases d,
    {
        if d < 1 {
            return None;
        }
        match resolve_civil(zone, year, month, d, hour, minute, second) {
            Some(e) => {
                return Some(e);
            },
            None => {
                d = d - 1;
            },
        }
    }
}

/// Returns a `DateComponent` that represents the difference between the
/// `from` and `to` instants.
///
/// The smaller timestamp is the start; `invert` says whether it was `to`.
/// The flat totals and the hour/minute/second remainder come from the
/// physical duration, so they are correct across daylight-saving
/// transitions; the calendar components come from civil-field comparison in
/// the earlier instant's attached zone, with day and month borrowing, and
/// the day count split into whole weeks and leftover days.
pub fn calculate(from_datetime: &ZonedInstant, to_datetime: &ZonedInstant) -> (r: DateComponent)
    requires
        from_datetime.wf(),
        to_datetime.wf(),
    ensures
        r@ == spec_calculate(*from_datetime, *to_datetime),
        r.invert == (from_datetime.epoch_seconds > to_datetime.epoch_seconds),
        r.interval_seconds == if from_datetime.epoch_seconds >= to_datetime.epoch_seconds {
            from_datetime.epoch_seconds - to_datetime.epoch_seconds
        } else {
            to_datetime.epoch_seconds - from_datetime.epoch_seconds
        },
        r.interval_minutes == r.interval_seconds / 60,
        r.interval_hours == r.interval_seconds / 3600,
        r.interval_days == r.interval_seconds / 86400,
        r.hour == r.interval_hours % 24,
        r.minute == r.interval_minutes % 60,
        r.second == r.interval_seconds % 60,
        r.day == r.week * 7 + r.modulo_days,
        0 <= r.modulo_days <= 6,
        0 <= r.week,
        0 <= r.day,
        0 <= r.year,
        0 <= r.month <= 11,
{
    if from_datetime.epoch_seconds == to_datetime.epoch_seconds {
        return DateComponent {
            year: 0,
            month: 0,
            week: 0,
            modulo_days: 0,
            day: 0,
            hour: 0,
            minute: 0,
            second: 0,
            interval_seconds: 0,
            interval_minutes: 0,
            interval_hours: 0,
            interval_days: 0,
            invert: false,
        };
    }
    let invert = from_datetime.epoch_seconds > to_datetime.epoch_seconds;
    let start = if invert {
        to_datetime
    } else {
        from_datetime
    };
    let end = if invert {
        from_datetime
    } else {
        to_datetime
    };
    let delta = end.epoch_seconds - start.epoch_seconds;
    let du = delta as u64;
    let interval_minutes = (du / 60) as i64;
    let interval_hours = (du / 3600) as i64;
    let interval_days = (du / 86400) as i64;
    let hour = ((du / 3600) % 24) as i64;
    let minute = ((du / 60) % 60) as i64;
    let second = (du % 60) as i64;
    let sc = civil_in_zone(start.epoch_seconds, &start.zone);
    let ec = civil_in_zone(end.epoch_seconds, &start.zone);
    let borrow = ec.day < sc.day;
    let (target_year, target_month) = if borrow {
        if ec.month == 1 {
            (ec.year - 1, 12)
        } else {
            (ec.year, ec.month - 1)
        }
    } else {
        (ec.year, ec.month)
    };
    let interim = get_nearest_day_before(
        &start.zone,
        target_year,
        target_month,
        sc.day,
        sc.hour,
        sc.minute,
        sc.second,
    );
    let day_count: i64 = match interim {
        Some(e) => {
            if e <= end.epoch_seconds {
                (((end.epoch_seconds - e) as u64) / 86400) as i64
            } else {
                0
            }
        },
        None => {
            if ec.day >= sc.day {
                ec.day - sc.day
            } else {
                0
            }
        },
    };
    let months0 = ec.month - sc.month - (if borrow {
        1
    } else {
        0
    });
    let years0 = ec.year - sc.year;
    let (years1, months1) = if months0 < 0 {
        (years0 - 1, months0 + 12)
    } else {
        (years0, months0)
    };
    let year = if years1 < 0 {
        0
    } else {
        years1
    };
    let week = ((day_count as u64) / 7) as i64;
    let modulo_days = ((day_count as u64) % 7) as i64;
    DateComponent {
        year,
        month: months1,
        week,
        modulo_days,
        day: day_count,
        hour,
        minute,
        second,
        interval_seconds: delta,
        interval_minutes,
        interval_hours,
        interval_days,
        invert,
    }
}

/// Swapping the two instants leaves every component of the breakdown
/// unchanged and negates `invert`, for any two instants at distinct points
/// on the physical timeline. (For two instants at the same point both
/// orders yield the all-zero breakdown, whose `invert` is false either
/// way; see `lemma_same_instant`.)
pub proof fn lemma_symmetry(a: ZonedInstant, b: ZonedInstant)
    requires
        a.epoch_seconds != b.epoch_seconds,
    ensures
        spec_calculate(a, b).year == spec_calculate(b, a).year,
        spec_calculate(a, b).month == spec_calculate(b, a).month,
        spec_calculate(a, b).week == spec_calculate(b, a).week,
        spec_calculate(a, b).modulo_days == spec_calculate(b, a).modulo_days,
        spec_calculate(a, b).day == spec_calculate(b, a).day,
        spec_calculate(a, b).hour == spec_calculate(b, a).hour,
        spec_calculate(a, b).minute == spec_calculate(b, a).minute,
        spec_calculate(a, b).second == spec_calculate(b, a).second,
        spec_calculate(a, b).interval_seconds == spec_calculate(b, a).interval_seconds,
        spec_calculate(a, b).interval_minutes == spec_calculate(b, a).interval_minutes,
        spec_calculate(a, b).interval_hours == spec_calculate(b, a).interval_hours,
        spec_calculate(a, b).interval_days == spec_calculate(b, a).interval_days,
        spec_calculate(a, b).invert == !spec_calculate(b, a).invert,
{
}

/// Two instants at the same point on the physical timeline, whatever their
/// attached zones, yield the all-zero breakdown.
pub proof fn lemma_same_instant(a: ZonedInstant, b: ZonedInstant)
    requires
        a.epoch_seconds == b.epoch_seconds,
    ensures
        spec_calculate(a, b) == zero_breakdown(),
{
}

/// The difference between an instant and itself is the all-zero breakdown,
/// with `invert` false.
pub proof fn lemma_zero_interval(x: ZonedInstant)
    ensures
        spec_calculate(x, x) == zero_breakdown(),
        !spec_calculate(x, x).invert,
{
}

} // verus!

