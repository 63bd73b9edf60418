//! Calendar days.
//!
//! A day is held as its number on the proleptic Gregorian day line, on which
//! 1 January of year 1 is day 1. That day is a Monday, so the weekday and
//! the week of a day follow from its number alone. Text in the form
//! `YYYY-MM-DD` is read and written by the `chrono` crate.

use vstd::prelude::*;

verus! {

/// The day number that `chrono` reads from a text in the form `%Y-%m-%d`,
/// or `None` where it reads no date.
pub uninterp spec fn iso_day_number(text: Seq<char>) -> Option<int>;

/// The text in the form `%Y-%m-%d` that `chrono` writes for a day number,
/// or `None` where the number is outside the dates it can hold.
pub uninterp spec fn iso_text(days: int) -> Option<Seq<char>>;

/// Calls `chrono::NaiveDate::parse_from_str` with the format `%Y-%m-%d` and
/// hands out the date's `num_days_from_ce`. The contract only gives the
/// result its name, `iso_day_number`.
#[verifier::external_body]
fn parse_day_number(text: &str) -> (r: Option<i32>)
    ensures
        match r {
            Some(n) => iso_day_number(text@) == Some(n as int),
            None => iso_day_number(text@).is_none(),
        },
{
    match chrono::NaiveDate::parse_from_str(text, "%Y-%m-%d") {
        Ok(d) => Some(chrono::Datelike::num_days_from_ce(&d)),
        Err(_) => None,
    }
}

/// Calls `chrono::NaiveDate::from_num_days_from_ce_opt` and formats the
/// date with `%Y-%m-%d`. The contract only gives the result its name,
/// `iso_text`.
#[verifier::external_body]
fn format_day_number(days: i32) -> (r: Option<String>)
    ensures
        match r {
            Some(s) => iso_text(days as int) == Some(s@),
            None => iso_text(days as int).is_none(),
        },
{
    match chrono::NaiveDate::from_num_days_from_ce_opt(days) {
        Some(d) => Some(d.format("%Y-%m-%d").to_string()),
        None => None,
    }
}

/// A calendar day.
#[derive(Debug, Clone, Copy, PartialEq, Eq, Structural)]
pub struct Date {
    /// The day's number; day 1 is Monday, 1 January of year 1.
    pub days: i32,
}

/// The weekday of a day number, Sunday = 0 to Saturday = 6.
pub open spec fn weekday_of(days: int) -> int {
    days % 7
}

/// The week of a day number. Weeks run from Monday to Sunday and are
/// numbered along the day line.
pub open spec fn week_of(days: int) -> int {
    (days - 1) / 7
}

/// The number of the day `n` days before `today`, or of the first day that
/// can be numbered where that is later.
pub open spec fn day_back(today: Date, n: u32) -> i32 {
    if today.days - n < i32::MIN {
        i32::MIN
    } else {
        (today.days - n) as i32
    }
}

impl Date {
    /// The number of the day `n` days before this one.
    pub fn back(&self, n: u32) -> (r: i32)
        ensures
            r == day_back(*self, n),
    {
        let start: i64 = self.days as i64 - n as i64;
        if start < i32::MIN as i64 {
            i32::MIN
        } else {
            start as i32
        }
    }

    /// The day that a stored text names, if it names one.
    pub open spec fn of_text(text: Seq<char>) -> Option<Date> {
        match iso_day_number(text) {
            Some(n) => Some(Date { days: n as i32 }),
            None => None,
        }
    }

    /// Reads a day from text in the form `YYYY-MM-DD`.
    pub fn parse(text: &str) -> (r: Option<Date>)
        ensures
            r == Date::of_text(text@),
    {
        match parse_day_number(text) {
            Some(n) => Some(Date { days: n }),
            None => None,
        }
    }

    /// Writes the day in the form `YYYY-MM-DD`, where the calendar reaches
    /// that far.
    pub fn to_iso_string(&self) -> (r: Option<String>)
        ensures
            match r {
                Some(s) => iso_text(self.days as int) == Some(s@),
                None => iso_text(self.days as int).is_none(),
            },
    {
        format_day_number(self.days)
    }

    /// The weekday, Sunday = 0 to Saturday = 6.
    pub fn weekday(&self) -> (r: u8)
        ensures
            r == weekday_of(self.days as int),
            r < 7,
    {
        // 2147483653 is a multiple of 7 above every negative day number.
        let shifted: i64 = self.days as i64 + 2147483653;
        (shifted % 7) as u8
    }

    /// The Monday-to-Sunday week that holds the day.
    pub fn week(&self) -> (r: i32)
        ensures
            r == week_of(self.days as int),
    {
        let shifted: i64 = self.days as i64 - 1 + 2147483653;
        (shifted / 7 - 306783379) as i32
    }

    /// The day `n` days later (earlier for a negative `n`), or `None` where
    /// the day number leaves the range of `i32`.
    pub fn plus_days(&self, n: i64) -> (r: Option<Date>)
        ensures
            match r {
                Some(d) => d.days == self.days + n,
                None => self.days + n < i32::MIN || self.days + n > i32::MAX,
            },
    {
        if n < -0x1_0000_0000 || n > 0x1_0000_0000 {
            return None;
        }
        let target: i64 = self.days as i64 + n;
        if target < i32::MIN as i64 || target > i32::MAX as i64 {
            None
        } else {
            Some(Date { days: target as i32 })
        }
    }

    /// Whether the day lies in the range from `lo` to `hi`, both included.
    pub fn is_within(&self, lo: Date, hi: Date) -> (r: bool)
        ensures
            r == (lo.days <= self.days <= hi.days),
    {
        lo.days <= self.days && self.days <= hi.days
    }
}

} // verus!
