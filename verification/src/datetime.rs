//! Calendar dates and times as the window system passes them: plain fields,
//! with a verified validity check.

use vstd::prelude::*;

verus! {

/// A date and time, field by field, the way the window system marshals one.
#[derive(Clone, Copy, Debug, PartialEq, Eq, Structural)]
pub struct SystemTime {
    /// The year, 1601 through 30827.
    pub year: u16,
    /// The month, 1 (January) through 12 (December).
    pub month: u16,
    /// The day of the week, 0 (Sunday) through 6 (Saturday); ignored when a
    /// time is handed to the system.
    pub day_of_week: u16,
    /// The day of the month, 1 through the month's length.
    pub day: u16,
    /// The hour, 0 through 23.
    pub hour: u16,
    /// The minute, 0 through 59.
    pub minute: u16,
    /// The second, 0 through 59.
    pub second: u16,
    /// The millisecond, 0 through 999.
    pub millisecond: u16,
}

/// Whether `year` is a leap year: divisible by 4, except century years not
/// divisible by 400.
pub open spec fn is_leap_year(year: int) -> bool {
    year % 4 == 0 && (year % 100 != 0 || year % 400 == 0)
}

/// How many days `month` has in `year`.
pub open spec fn days_in_month(year: int, month: int) -> int {
    if month == 2 {
        if is_leap_year(year) {
            29
        } else {
            28
        }
    } else if month == 4 || month == 6 || month == 9 || month == 11 {
        30
    } else {
        31
    }
}

/// The zeroed time value: every field zero, not a valid date.
pub open spec fn zero_time() -> SystemTime {
    SystemTime {
        year: 0u16,
        month: 0u16,
        day_of_week: 0u16,
        day: 0u16,
        hour: 0u16,
        minute: 0u16,
        second: 0u16,
        millisecond: 0u16,
    }
}

impl SystemTime {
    /// A zeroed value, the state before the system has filled one in.  Not a
    /// valid date.
    pub fn zeroed() -> (st: SystemTime)
        ensures
            st == zero_time(),
    {
        SystemTime {
            year: 0,
            month: 0,
            day_of_week: 0,
            day: 0,
            hour: 0,
            minute: 0,
            second: 0,
            millisecond: 0,
        }
    }

    /// Whether every field is in range: a date the system accepts.
    /// The day-of-week field is ignored, as the system ignores it on input.
    pub open spec fn valid(self) -> bool {
        &&& 1601 <= self.year <= 30827
        &&& 1 <= self.month <= 12
        &&& 1 <= self.day <= days_in_month(self.year as int, self.month as int)
        &&& self.hour <= 23
        &&& self.minute <= 59
        &&& self.second <= 59
        &&& self.millisecond <= 999
    }

    /// Checks that every field is in range.
    pub fn is_valid(&self) -> (r: bool)
        ensures
            r == self.valid(),
    {
        let leap = self.year % 4 == 0 && (self.year % 100 != 0 || self.year % 400 == 0);
        let month_days: u16 = if self.month == 2 {
            if leap {
                29
            } else {
                28
            }
        } else if self.month == 4 || self.month == 6 || self.month == 9 || self.month == 11 {
            30
        } else {
            31
        };
        1601 <= self.year && self.year <= 30827 && 1 <= self.month && self.month <= 12
            && 1 <= self.day && self.day <= month_days && self.hour <= 23 && self.minute <= 59
            && self.second <= 59 && self.millisecond <= 999
    }
}

} // verus!
