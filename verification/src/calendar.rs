//! Plain values for dates, clock times, instants and fixed offsets.
use vstd::prelude::*;

verus! {

/// A time zone that is a fixed number of seconds east of UTC.
#[derive(Clone, Copy, Debug, PartialEq, Eq, Structural)]
pub struct FixedZone {
    pub east: i32,
}

impl FixedZone {
    /// The offset can stand in a zone: less than a day either way.
    pub open spec fn valid(self) -> bool {
        -86_400 < self.east && self.east < 86_400
    }

    /// UTC itself.
    pub fn utc() -> (z: FixedZone)
        ensures
            z.east == 0,
            z.valid(),
    {
        FixedZone { east: 0 }
    }

    /// The zone `secs` seconds east of UTC, where that is less than a day.
    pub fn east_opt(secs: i32) -> (r: Option<FixedZone>)
        ensures
            r is Some <==> -86_400 < secs && secs < 86_400,
            r matches Some(z) ==> z.east == secs && z.valid(),
    {
        if -86_400 < secs && secs < 86_400 {
            Some(FixedZone { east: secs })
        } else {
            None
        }
    }

    /// The zone `secs` seconds west of UTC, where that is less than a day.
    pub fn west_opt(secs: i32) -> (r: Option<FixedZone>)
        ensures
            r is Some <==> -86_400 < secs && secs < 86_400,
            r matches Some(z) ==> z.east == -secs && z.valid(),
    {
        if -86_400 < secs && secs < 86_400 {
            Some(FixedZone { east: -secs })
        } else {
            None
        }
    }
}

/// A time of day on a clock: hour, minute, second and the nanoseconds after
/// the second.
#[derive(Clone, Copy, Debug, PartialEq, Eq, Structural)]
pub struct TimeOfDay {
    pub hour: u32,
    pub minute: u32,
    pub second: u32,
    pub nanosecond: u32,
}

/// A date of the proleptic Gregorian calendar.
#[derive(Clone, Copy, Debug, PartialEq, Eq, Structural)]
pub struct CalendarDate {
    pub year: i32,
    pub month: u32,
    pub day: u32,
}

/// A date and a time of day, as a wall clock shows them, with no zone.
#[derive(Clone, Copy, Debug, PartialEq, Eq, Structural)]
pub struct LocalDateTime {
    pub date: CalendarDate,
    pub time: TimeOfDay,
}

/// An instant: whole seconds since 1970-01-01 00:00:00 UTC, not counting leap
/// seconds, and the nanoseconds after them.
#[derive(Clone, Copy, Debug, PartialEq, Eq, Structural)]
pub struct UtcDateTime {
    pub timestamp: i64,
    pub nanosecond: u32,
}

impl UtcDateTime {
    /// The instant `timestamp` seconds and `nanosecond` nanoseconds after the
    /// epoch.
    pub fn new(timestamp: i64, nanosecond: u32) -> (r: UtcDateTime)
        ensures
            r.timestamp == timestamp,
            r.nanosecond == nanosecond,
    {
        UtcDateTime { timestamp, nanosecond }
    }
}


/// The first year of the calendar that `chrono` can show.
pub open spec fn first_year() -> int {
    -262143
}

/// The last year of the calendar that `chrono` can show.
pub open spec fn last_year() -> int {
    262142
}

/// Gregorian leap years: divisible by 4, and not by 100 unless by 400.
pub open spec fn is_leap_year(y: int) -> bool {
    (y % 4 == 0 && y % 100 != 0) || y % 400 == 0
}

/// The number of days in month `m` of year `y`.
pub open spec fn days_in_month(y: int, m: int) -> int {
    if m == 2 {
        if is_leap_year(y) {
            29
        } else {
            28
        }
    } else if m == 4 || m == 6 || m == 9 || m == 11 {
        30
    } else {
        31
    }
}

/// The number of days from 1970-01-01 to the date `y-m-d` of the proleptic
/// Gregorian calendar (negative before it).
pub open spec fn days_from_epoch(y: int, m: int, d: int) -> int {
    let yy = if m <= 2 {
        y - 1
    } else {
        y
    };
    let era = yy / 400;
    let yoe = yy - era * 400;
    let mp = if m > 2 {
        m - 3
    } else {
        m + 9
    };
    let doy = (153 * mp + 2) / 5 + d - 1;
    let doe = yoe * 365 + yoe / 4 - yoe / 100 + doy;
    era * 146097 + doe - 719468
}

impl CalendarDate {
    /// A date that the calendar has and that `chrono` can show.
    pub open spec fn valid(self) -> bool {
        &&& first_year() <= self.year <= last_year()
        &&& 1 <= self.month <= 12
        &&& 1 <= self.day <= days_in_month(self.year as int, self.month as int)
    }
}

impl TimeOfDay {
    /// A time that a clock can show; the nanoseconds may run past a second
    /// only in the last second of a minute, for a leap second.
    pub open spec fn valid(self) -> bool {
        &&& self.hour < 24
        &&& self.minute < 60
        &&& self.second < 60
        &&& self.nanosecond < 2_000_000_000
        &&& self.nanosecond >= 1_000_000_000 ==> self.second == 59
    }
}

impl LocalDateTime {
    /// A valid date and a valid time of day.
    pub open spec fn valid(self) -> bool {
        self.date.valid() && self.time.valid()
    }

    /// The seconds from 1970-01-01 00:00:00 to this wall-clock reading, read
    /// as UTC, not counting leap seconds.
    pub open spec fn epoch_seconds(self) -> int {
        days_from_epoch(self.date.year as int, self.date.month as int, self.date.day as int) * 86400
            + self.time.hour * 3600 + self.time.minute * 60 + self.time.second
    }

    /// Read as UTC, at least a day inside the range of instants that `chrono`
    /// can show, so that every fixed offset keeps it inside.
    pub open spec fn a_day_inside(self) -> bool {
        first_instant() + 86_400 <= self.epoch_seconds() && self.epoch_seconds() + 86_400 <= last_instant()
    }
}

/// The first second of the first day that `chrono` can show, in seconds
/// since the epoch.
pub open spec fn first_instant() -> int {
    days_from_epoch(first_year(), 1, 1) * 86_400
}

/// The last second of the last day that `chrono` can show, in seconds since
/// the epoch.
pub open spec fn last_instant() -> int {
    days_from_epoch(last_year(), 12, 31) * 86_400 + 86_399
}

impl UtcDateTime {
    /// A reading that the system clock can give through `chrono`: not before
    /// the epoch, not past the last instant that `chrono` can show, and less
    /// than a second of nanoseconds.
    pub open spec fn clock_reading(self) -> bool {
        &&& 0 <= self.timestamp <= last_instant()
        &&& self.nanosecond < 1_000_000_000
    }

    /// A reading at least a day inside the range of instants that `chrono`
    /// can show, with less than a second of nanoseconds: every fixed zone's
    /// wall clock can show it.
    pub open spec fn clock_like(self) -> bool {
        &&& first_instant() + 86_400 <= self.timestamp
        &&& self.timestamp + 86_400 <= last_instant()
        &&& self.nanosecond < 1_000_000_000
    }
}

} // verus!
