//! Plain civil-time values and the result type of the calculation.

use vstd::prelude::*;

verus! {

/// Civil (wall-clock) year, month, day, hour, minute and second of an
/// instant, as read in some time zone.
#[derive(Debug, Clone, Copy, PartialEq, Eq)]
pub struct CivilTime {
    /// Calendar year (proleptic Gregorian, may be negative).
    pub year: i64,
    /// Month of the year, 1 through 12.
    pub month: i64,
    /// Day of the month, 1-based.
    pub day: i64,
    /// Hour of the day, 0 through 23.
    pub hour: i64,
    /// Minute of the hour, 0 through 59.
    pub minute: i64,
    /// Second of the minute, 0 through 59.
    pub second: i64,
}

/// Mathematical mirror of `CivilTime`, used in specifications.
pub ghost struct CivilView {
    pub year: int,
    pub month: int,
    pub day: int,
    pub hour: int,
    pub minute: int,
    pub second: int,
}

impl View for CivilTime {
    type V = CivilView;

    open spec fn view(&self) -> CivilView {
        CivilView {
            year: self.year as int,
            month: self.month as int,
            day: self.day as int,
            hour: self.hour as int,
            minute: self.minute as int,
            second: self.second as int,
        }
    }
}

/// Field ranges of a civil time that a calendar library can hand out:
/// a valid month, day-of-month, and time of day, with the year within
/// the range that the calendar collaborator supports.
pub open spec fn civil_wf(c: CivilView) -> bool {
    &&& -262_144 <= c.year <= 262_143
    &&& 1 <= c.month <= 12
    &&& 1 <= c.day <= 31
    &&& 0 <= c.hour <= 23
    &&& 0 <= c.minute <= 59
    &&& 0 <= c.second <= 59
}

/// The difference between two instants: calendar components after
/// borrowing (`year` through `second`), flat totals of the elapsed
/// physical time (`interval_*`), and the orientation flag `invert`.
#[derive(Debug, Clone, Copy, PartialEq, Eq)]
pub struct DateComponent {
    /// Number of years.
    pub year: i64,
    /// Number of months, 0 through 11.
    pub month: i64,
    /// Number of whole weeks in `day`.
    pub week: i64,
    /// Number of days remaining when using weeks, 0 through 6.
    pub modulo_days: i64,
    /// Number of days remaining after the year/month extraction.
    pub day: i64,
    /// Hours of the time-of-day remainder, derived from the physical duration.
    pub hour: i64,
    /// Minutes of the time-of-day remainder, derived from the physical duration.
    pub minute: i64,
    /// Seconds of the time-of-day remainder, derived from the physical duration.
    pub second: i64,
    /// Total number of whole seconds between the two instants.
    pub interval_seconds: i64,
    /// Total number of whole minutes between the two instants.
    pub interval_minutes: i64,
    /// Total number of whole hours between the two instants.
    pub interval_hours: i64,
    /// Total number of whole days between the two instants.
    pub interval_days: i64,
    /// True iff the first instant is chronologically after the second.
    pub invert: bool,
}

/// Mathematical mirror of `DateComponent`, used in specifications.
pub ghost struct Breakdown {
    pub year: int,
    pub month: int,
    pub week: int,
    pub modulo_days: int,
    pub day: int,
    pub hour: int,
    pub minute: int,
    pub second: int,
    pub interval_seconds: int,
    pub interval_minutes: int,
    pub interval_hours: int,
    pub interval_days: int,
    pub invert: bool,
}

impl View for DateComponent {
    type V = Breakdown;

    open spec fn view(&self) -> Breakdown {
        Breakdown {
            year: self.year as int,
            month: self.month as int,
            week: self.week as int,
            modulo_days: self.modulo_days as int,
            day: self.day as int,
            hour: self.hour as int,
            minute: self.minute as int,
            second: self.second as int,
            interval_seconds: self.interval_seconds as int,
            interval_minutes: self.interval_minutes as int,
            interval_hours: self.interval_hours as int,
            interval_days: self.interval_days as int,
            invert: self.invert,
        }
    }
}

/// The breakdown of an empty interval: every component zero, not inverted.
pub open spec fn zero_breakdown() -> Breakdown {
    Breakdown {
        year: 0,
        month: 0,
        week: 0,
        modulo_days: 0,
        day: 0,
        hour: 0,
        minute: 0,
        second: 0,
        interval_seconds: 0,
        interval_minutes: 0,
        interval_hours: 0,
        interval_days: 0,
        invert: false,
    }
}

} // verus!
