//! The kernel's wall clock: a calendar date and a time of day, advanced one
//! second per timer tick.
use crate::text::{padded, push_char, push_padded};
use vstd::prelude::*;

verus! {

/// A date and a time of day.
#[derive(Debug, Clone, Copy)]
pub struct DateTime {
    pub day: u8,
    pub month: u8,
    pub year: u16,
    pub hours: u8,
    pub minutes: u8,
    pub seconds: u8,
}

/// Whether `year` is a leap year of the Gregorian calendar.
pub open spec fn leap_year(year: nat) -> bool {
    (year % 4 == 0 && year % 100 != 0) || year % 400 == 0
}

/// The number of days of `month` in `year`; 30 for a number that is no month.
pub open spec fn month_days(month: nat, year: nat) -> nat {
    if month == 2 {
        if leap_year(year) { 29 } else { 28 }
    } else if month == 4 || month == 6 || month == 9 || month == 11 {
        30
    } else if 1 <= month <= 12 {
        31
    } else {
        30
    }
}

/// A calendar date and time of day that exists.
pub open spec fn valid(t: DateTime) -> bool {
    &&& t.seconds < 60
    &&& t.minutes < 60
    &&& t.hours < 24
    &&& 1 <= t.month <= 12
    &&& 1 <= t.day <= month_days(t.month as nat, t.year as nat)
}

/// `t` advanced by one second: each field that passes its limit starts over
/// and carries into the next one.
pub open spec fn next_second(t: DateTime) -> DateTime {
    if t.seconds + 1 < 60 {
        DateTime { seconds: (t.seconds + 1) as u8, ..t }
    } else if t.minutes + 1 < 60 {
        DateTime { seconds: 0, minutes: (t.minutes + 1) as u8, ..t }
    } else if t.hours + 1 < 24 {
        DateTime { seconds: 0, minutes: 0, hours: (t.hours + 1) as u8, ..t }
    } else if t.day + 1 <= month_days(t.month as nat, t.year as nat) {
        DateTime { seconds: 0, minutes: 0, hours: 0, day: (t.day + 1) as u8, ..t }
    } else if t.month + 1 <= 12 {
        DateTime { seconds: 0, minutes: 0, hours: 0, day: 1, month: (t.month + 1) as u8, ..t }
    } else {
        DateTime {
            seconds: 0,
            minutes: 0,
            hours: 0,
            day: 1,
            month: 1,
            year: (t.year + 1) as u16,
        }
    }
}

/// The fields that `next_second` increments stay within their types.
pub open spec fn advances_in_range(t: DateTime) -> bool {
    &&& t.seconds < 255
    &&& t.seconds + 1 >= 60 ==> t.minutes < 255
    &&& t.seconds + 1 >= 60 && t.minutes + 1 >= 60 ==> t.hours < 255
    &&& t.seconds + 1 >= 60 && t.minutes + 1 >= 60 && t.hours + 1 >= 24 ==> t.day < 255
    &&& t.seconds + 1 >= 60 && t.minutes + 1 >= 60 && t.hours + 1 >= 24 && t.day + 1 > month_days(
        t.month as nat,
        t.year as nat,
    ) ==> t.month < 255
    &&& t.seconds + 1 >= 60 && t.minutes + 1 >= 60 && t.hours + 1 >= 24 && t.day + 1 > month_days(
        t.month as nat,
        t.year as nat,
    ) && t.month + 1 > 12 ==> t.year < 65535
}

/// `dd.mm.yyyy`, each field zero-padded.
pub open spec fn date_text(t: DateTime) -> Seq<char> {
    padded(t.day as nat, 2) + seq!['.'] + padded(t.month as nat, 2) + seq!['.'] + padded(
        t.year as nat,
        4,
    )
}

/// `hh:mm`, each field zero-padded.
pub open spec fn time_text(t: DateTime) -> Seq<char> {
    padded(t.hours as nat, 2) + seq![':'] + padded(t.minutes as nat, 2)
}

/// `dd.mm.yyyy hh:mm:ss`, each field zero-padded.
pub open spec fn full_text(t: DateTime) -> Seq<char> {
    date_text(t) + seq![' '] + time_text(t) + seq![':'] + padded(t.seconds as nat, 2)
}

proof fn lemma_next_second_valid(t: DateTime)
    requires
        valid(t),
        t.year < 65535,
    ensures
        advances_in_range(t),
        valid(next_second(t)),
{
}

impl DateTime {
    const MAX_MONTHS: u8 = 12;
    const MAX_HOURS: u8 = 24;
    const MAX_MINUTES: u8 = 60;
    const MAX_SECONDS: u8 = 60;

    /// The date and time as `dd.mm.yyyy hh:mm:ss`.
    pub fn now(&self) -> (r: String)
        ensures
            r@ == full_text(*self),
    {
        let mut s = self.date_string();
        push_char(&mut s, ' ');
        push_padded(&mut s, self.hours as u16, 2);
        push_char(&mut s, ':');
        push_padded(&mut s, self.minutes as u16, 2);
        push_char(&mut s, ':');
        push_padded(&mut s, self.seconds as u16, 2);
        s
    }

    /// Advances the clock by one second. A valid clock stays valid, up to the
    /// last year a `u16` holds.
    pub fn update(&mut self)
        requires
            advances_in_range(*old(self)),
        ensures
            *final(self) == next_second(*old(self)),
            valid(*old(self)) && old(self).year < 65535 ==> valid(*final(self)),
    {
        proof {
            if valid(*old(self)) && old(self).year < 65535 {
                lemma_next_second_valid(*old(self));
            }
        }
        self.seconds += 1;
        if self.seconds < Self::MAX_SECONDS {
            return;
        }
        self.seconds = 0;
        self.minutes += 1;
        if self.minutes < Self::MAX_MINUTES {
            return;
        }
        self.minutes = 0;
        self.hours += 1;
        if self.hours < Self::MAX_HOURS {
            return;
        }
        self.hours = 0;
        self.day += 1;
        if self.day <= Self::days_in_month(self.month, self.year) {
            return;
        }
        self.day = 1;
        self.month += 1;
        if self.month <= Self::MAX_MONTHS {
            return;
        }
        self.month = 1;
        self.year += 1;
    }

    /// Sets the time of day; an hour over 23, or a minute or second over 59,
    /// is refused and leaves the clock as it was.
    pub fn set_time(&mut self, hours: u8, minutes: u8, seconds: u8) -> (r: Result<(), &'static str>)
        ensures
            hours > 23 || minutes > 59 || seconds > 59 ==> {
                &&& r == Err::<(), &'static str>("Invalid time")
                &&& *final(self) == *old(self)
            },
            !(hours > 23 || minutes > 59 || seconds > 59) ==> {
                &&& r is Ok
                &&& *final(self) == DateTime { hours, minutes, seconds, ..*old(self) }
            },
    {
        if hours > 23 || minutes > 59 || seconds > 59 {
            return Err("Invalid time");
        }
        self.hours = hours;
        self.minutes = minutes;
        self.seconds = seconds;
        Ok(())
    }

    /// Sets the date; a month outside 1..=12, or a day outside the days of
    /// that month, is refused and leaves the clock as it was.
    pub fn set_date(&mut self, day: u8, month: u8, year: u16) -> (r: Result<(), &'static str>)
        ensures
            month == 0 || month > 12 ==> {
                &&& r == Err::<(), &'static str>("Invalid month")
                &&& *final(self) == *old(self)
            },
            1 <= month <= 12 && (day == 0 || day > month_days(month as nat, year as nat)) ==> {
                &&& r == Err::<(), &'static str>("Invalid day for given month/year")
                &&& *final(self) == *old(self)
            },
            1 <= month <= 12 && 1 <= day <= month_days(month as nat, year as nat) ==> {
                &&& r is Ok
                &&& *final(self) == DateTime { day, month, year, ..*old(self) }
            },
    {
        if month == 0 || month > 12 {
            return Err("Invalid month");
        }
        let max_days = Self::days_in_month(month, year);
        if day == 0 || day > max_days {
            return Err("Invalid day for given month/year");
        }
        self.day = day;
        self.month = month;
        self.year = year;
        Ok(())
    }

    /// The time of day as `hh:mm`.
    pub fn time_string(&self) -> (r: String)
        ensures
            r@ == time_text(*self),
    {
        let mut s = String::new();
        push_padded(&mut s, self.hours as u16, 2);
        push_char(&mut s, ':');
        push_padded(&mut s, self.minutes as u16, 2);
        s
    }

    /// The date as `dd.mm.yyyy`.
    pub fn date_string(&self) -> (r: String)
        ensures
            r@ == date_text(*self),
    {
        let mut s = String::new();
        push_padded(&mut s, self.day as u16, 2);
        push_char(&mut s, '.');
        push_padded(&mut s, self.month as u16, 2);
        push_char(&mut s, '.');
        push_padded(&mut s, self.year, 4);
        s
    }

    fn days_in_month(month: u8, year: u16) -> (r: u8)
        ensures
            r == month_days(month as nat, year as nat),
    {
        match month {
            1 => 31,
            2 => {
                if Self::is_leap_year(year) {
                    29
                } else {
                    28
                }
            },
            3 => 31,
            4 => 30,
            5 => 31,
            6 => 30,
            7 => 31,
            8 => 31,
            9 => 30,
            10 => 31,
            11 => 30,
            12 => 31,
            _ => 30,
        }
    }

    fn is_leap_year(year: u16) -> (r: bool)
        ensures
            r == leap_year(year as nat),
    {
        (year % 4 == 0 && year % 100 != 0) || (year % 400 == 0)
    }

    /// Hours, minutes and seconds.
    pub fn get_time(&self) -> (r: (u8, u8, u8))
        ensures
            r == (self.hours, self.minutes, self.seconds),
    {
        (self.hours, self.minutes, self.seconds)
    }

    /// Day, month and year.
    pub fn get_date(&self) -> (r: (u8, u8, u16))
        ensures
            r == (self.day, self.month, self.year),
    {
        (self.day, self.month, self.year)
    }
}

} // verus!
