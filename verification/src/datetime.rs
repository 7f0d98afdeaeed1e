//! Local wall-clock timestamps at minute granularity.

use vstd::prelude::*;
use crate::text::digit_char;

verus! {

/// Whether `year` is a leap year of the proleptic Gregorian calendar.
pub open spec fn is_leap_year(year: int) -> bool {
    year % 4 == 0 && (year % 100 != 0 || year % 400 == 0)
}

/// The number of days of a month; 0 for a month that does not exist.
pub open spec fn days_in_month(year: int, month: int) -> int {
    if month == 4 || month == 6 || month == 9 || month == 11 {
        30
    } else if month == 2 {
        if is_leap_year(year) {
            29
        } else {
            28
        }
    } else if 1 <= month <= 12 {
        31
    } else {
        0
    }
}

/// Whether the five numbers name a minute of a day of the calendar, in a
/// year that four digits write.
pub open spec fn is_minute_of_calendar(
    year: int,
    month: int,
    day: int,
    hour: int,
    minute: int,
) -> bool {
    &&& 0 <= year <= 9999
    &&& 1 <= month <= 12
    &&& 1 <= day <= days_in_month(year, month)
    &&& 0 <= hour < 24
    &&& 0 <= minute < 60
}

/// `n` in two decimal digits, for `n` below a hundred.
pub open spec fn two_digits(n: int) -> Seq<char> {
    seq![digit_char((n / 10) as nat), digit_char((n % 10) as nat)]
}

/// The text of a timestamp: `YYYY-MM-DDTHH:MM`, every number padded with
/// zeros to its width.
pub open spec fn stamp_text(year: int, month: int, day: int, hour: int, minute: int) -> Seq<char> {
    two_digits(year / 100) + two_digits(year % 100) + seq!['-'] + two_digits(month) + seq!['-']
        + two_digits(day) + seq!['T'] + two_digits(hour) + seq![':'] + two_digits(minute)
}

/// Formats a minute of the calendar with chrono: `NaiveDate::from_ymd_opt`,
/// then `NaiveDate::and_hms_opt` with zero seconds, then
/// `NaiveDateTime::format` with `%Y-%m-%dT%H:%M`. For a date of the calendar
/// in the years 0 to 9999 chrono builds the value and writes the year in
/// four digits and every other number in two, padded with zeros; that is
/// what the contract claims.
#[verifier::external_body]
fn format_minute(year: u16, month: u8, day: u8, hour: u8, minute: u8) -> (text: String)
    requires
        is_minute_of_calendar(year as int, month as int, day as int, hour as int, minute as int),
    ensures
        text@ == stamp_text(year as int, month as int, day as int, hour as int, minute as int),
{
    match chrono::NaiveDate::from_ymd_opt(i32::from(year), u32::from(month), u32::from(day)) {
        Some(date) => match date.and_hms_opt(u32::from(hour), u32::from(minute), 0) {
            Some(stamp) => stamp.format("%Y-%m-%dT%H:%M").to_string(),
            None => String::new(),
        },
        None => String::new(),
    }
}

/// A minute on the local wall clock.
#[derive(Debug, Clone, Copy, PartialEq, Eq)]
pub struct ActionDateTime {
    year: u16,
    month: u8,
    day: u8,
    hour: u8,
    minute: u8,
}

impl ActionDateTime {
    #[verifier::type_invariant]
    spec fn on_calendar(self) -> bool {
        is_minute_of_calendar(
            self.year as int,
            self.month as int,
            self.day as int,
            self.hour as int,
            self.minute as int,
        )
    }

    /// The year, from 0 to 9999.
    pub closed spec fn spec_year(self) -> int {
        self.year as int
    }

    /// The month, from 1 to 12.
    pub closed spec fn spec_month(self) -> int {
        self.month as int
    }

    /// The day of the month, from 1.
    pub closed spec fn spec_day(self) -> int {
        self.day as int
    }

    /// The hour, from 0 to 23.
    pub closed spec fn spec_hour(self) -> int {
        self.hour as int
    }

    /// The minute, from 0 to 59.
    pub closed spec fn spec_minute(self) -> int {
        self.minute as int
    }

    /// The text of the timestamp.
    pub open spec fn text(self) -> Seq<char> {
        stamp_text(
            self.spec_year(),
            self.spec_month(),
            self.spec_day(),
            self.spec_hour(),
            self.spec_minute(),
        )
    }

    /// The timestamp of the given minute, if the calendar has it.
    pub fn new(year: u16, month: u8, day: u8, hour: u8, minute: u8) -> (stamp: Option<Self>)
        ensures
            stamp is Some <==> is_minute_of_calendar(
                year as int,
                month as int,
                day as int,
                hour as int,
                minute as int,
            ),
            stamp matches Some(s) ==> s.spec_year() == year && s.spec_month() == month
                && s.spec_day() == day && s.spec_hour() == hour && s.spec_minute() == minute,
    {
        if year > 9999 || month < 1 || month > 12 || day < 1 || hour > 23 || minute > 59 {
            return None;
        }
        let leap = year % 4 == 0 && (year % 100 != 0 || year % 400 == 0);
        let days: u8 = if month == 4 || month == 6 || month == 9 || month == 11 {
            30
        } else if month == 2 {
            if leap {
                29
            } else {
                28
            }
        } else {
            31
        };
        if day > days {
            return None;
        }
        Some(ActionDateTime { year, month, day, hour, minute })
    }

    /// The year.
    pub fn year(&self) -> (year: u16)
        ensures
            year == self.spec_year(),
            year <= 9999,
    {
        proof {
            use_type_invariant(self);
        }
        self.year
    }

    /// The month.
    pub fn month(&self) -> (month: u8)
        ensures
            month == self.spec_month(),
            1 <= month <= 12,
    {
        proof {
            use_type_invariant(self);
        }
        self.month
    }

    /// The day of the month.
    pub fn day(&self) -> (day: u8)
        ensures
            day == self.spec_day(),
            1 <= day <= days_in_month(self.spec_year(), self.spec_month()),
    {
        proof {
            use_type_invariant(self);
        }
        self.day
    }

    /// The hour.
    pub fn hour(&self) -> (hour: u8)
        ensures
            hour == self.spec_hour(),
            hour < 24,
    {
        proof {
            use_type_invariant(self);
        }
        self.hour
    }

    /// The minute.
    pub fn minute(&self) -> (minute: u8)
        ensures
            minute == self.spec_minute(),
            minute < 60,
    {
        proof {
            use_type_invariant(self);
        }
        self.minute
    }

    /// Writes the timestamp as `YYYY-MM-DDTHH:MM`.
    pub fn to_string(&self) -> (text: String)
        ensures
            text@ == self.text(),
    {
        proof {
            use_type_invariant(self);
        }
        format_minute(self.year, self.month, self.day, self.hour, self.minute)
    }
}

/// How often an action comes back.
#[derive(Debug, Clone, Copy, PartialEq, Eq, Structural)]
pub enum Recurrance {
    Never,
    Daily,
    Weekly,
    Monthly,
    Yearly,
}

/// A timestamp together with the rhythm in which it comes back.
#[derive(Debug, Clone, Copy, PartialEq, Eq)]
pub struct ExtendedDateTime {
    /// The first occurrence.
    pub date: ActionDateTime,
    /// The rhythm, if the action comes back.
    pub recurrance: Option<Recurrance>,
}

} // verus!
