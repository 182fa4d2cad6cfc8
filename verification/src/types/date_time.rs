//! Calendar dates with a time of day, without a time zone.

use vstd::prelude::*;
use sqlx::types::time::{Date, PrimitiveDateTime, Time};

verus! {

/// Whether `year` is a leap year of the proleptic Gregorian calendar.
pub open spec fn is_leap_year(year: int) -> bool {
    year % 4 == 0 && (year % 100 != 0 || year % 400 == 0)
}

/// The number of days of `year`.
pub open spec fn days_in_year(year: int) -> int {
    if is_leap_year(year) {
        366
    } else {
        365
    }
}

/// Whether the six numbers name a moment: a year from -9999 to 9999, a day of
/// that year counted from 1, and a time of day to the nanosecond.
pub open spec fn is_date_time(
    year: int,
    ordinal: int,
    hour: int,
    minute: int,
    second: int,
    nanosecond: int,
) -> bool {
    &&& -9999 <= year <= 9999
    &&& 1 <= ordinal <= days_in_year(year)
    &&& 0 <= hour < 24
    &&& 0 <= minute < 60
    &&& 0 <= second < 60
    &&& 0 <= nanosecond < 1_000_000_000
}

/// The text that the `time` crate prints for the moment that the six numbers
/// name.
pub uninterp spec fn date_time_text(
    year: int,
    ordinal: int,
    hour: int,
    minute: int,
    second: int,
    nanosecond: int,
) -> Seq<char>;

/// Prints a moment as `time` does: builds a `PrimitiveDateTime` with
/// `Date::from_ordinal_date`, `Time::from_hms_nano` and `PrimitiveDateTime::new`
/// and calls its `to_string`.
///
/// The contract claims that the text depends on the six numbers alone. The
/// numbers must name a moment, since the two constructors refuse anything else.
#[verifier::external_body]
fn print_date_time(year: i32, ordinal: u16, hour: u8, minute: u8, second: u8, nanosecond: u32) -> (text:
    String)
    requires
        is_date_time(
            year as int,
            ordinal as int,
            hour as int,
            minute as int,
            second as int,
            nanosecond as int,
        ),
    ensures
        text@ == date_time_text(
            year as int,
            ordinal as int,
            hour as int,
            minute as int,
            second as int,
            nanosecond as int,
        ),
{
    let date = Date::from_ordinal_date(year, ordinal).unwrap();
    let time = Time::from_hms_nano(hour, minute, second, nanosecond).unwrap();
    PrimitiveDateTime::new(date, time).to_string()
}

/// Whether `year` is a leap year of the proleptic Gregorian calendar.
pub fn leap_year(year: i32) -> (leap: bool)
    ensures
        leap == is_leap_year(year as int),
{
    // The shift is a multiple of 400 above every `i32`, so it keeps all three
    // remainders and leaves nothing negative.
    let shifted: i64 = year as i64 + 2_147_484_000;
    shifted % 4 == 0 && (shifted % 100 != 0 || shifted % 400 == 0)
}

/// A calendar date with a time of day, as the store keeps it: no time zone.
///
/// A value always names a moment; [`DateTime::new`] refuses anything else.
#[derive(Clone, Copy, Debug)]
pub struct DateTime {
    year: i32,
    ordinal: u16,
    hour: u8,
    minute: u8,
    second: u8,
    nanosecond: u32,
}

/// What a [`DateTime`] holds.
pub ghost struct DateTimeView {
    pub year: int,
    pub ordinal: int,
    pub hour: int,
    pub minute: int,
    pub second: int,
    pub nanosecond: int,
}

impl DateTimeView {
    /// Whether the view names a moment.
    pub open spec fn is_valid(self) -> bool {
        is_date_time(
            self.year,
            self.ordinal,
            self.hour,
            self.minute,
            self.second,
            self.nanosecond,
        )
    }

    /// The text that stands for the moment.
    pub open spec fn text(self) -> Seq<char> {
        date_time_text(
            self.year,
            self.ordinal,
            self.hour,
            self.minute,
            self.second,
            self.nanosecond,
        )
    }
}

impl View for DateTime {
    type V = DateTimeView;

    closed spec fn view(&self) -> DateTimeView {
        DateTimeView {
            year: self.year as int,
            ordinal: self.ordinal as int,
            hour: self.hour as int,
            minute: self.minute as int,
            second: self.second as int,
            nanosecond: self.nanosecond as int,
        }
    }
}

impl DateTime {
    #[verifier::type_invariant]
    closed spec fn well_formed(self) -> bool {
        self@.is_valid()
    }

    /// The moment that the six numbers name, if they name one.
    pub fn new(year: i32, ordinal: u16, hour: u8, minute: u8, second: u8, nanosecond: u32) -> (moment:
        Option<DateTime>)
        ensures
            moment.is_some() == is_date_time(
                year as int,
                ordinal as int,
                hour as int,
                minute as int,
                second as int,
                nanosecond as int,
            ),
            moment.is_some() ==> moment.unwrap()@ == (DateTimeView {
                year: year as int,
                ordinal: ordinal as int,
                hour: hour as int,
                minute: minute as int,
                second: second as int,
                nanosecond: nanosecond as int,
            }),
    {
        if year < -9999 || year > 9999 {
            return None;
        }
        let days: u16 = if leap_year(year) {
            366
        } else {
            365
        };
        if ordinal < 1 || ordinal > days || hour >= 24 || minute >= 60 || second >= 60 || nanosecond
            >= 1_000_000_000 {
            return None;
        }
        Some(DateTime { year, ordinal, hour, minute, second, nanosecond })
    }

    pub fn year(&self) -> (year: i32)
        ensures
            year == self@.year,
    {
        self.year
    }

    /// The day of the year, counted from 1.
    pub fn ordinal(&self) -> (ordinal: u16)
        ensures
            ordinal == self@.ordinal,
    {
        self.ordinal
    }

    pub fn hour(&self) -> (hour: u8)
        ensures
            hour == self@.hour,
    {
        self.hour
    }

    pub fn minute(&self) -> (minute: u8)
        ensures
            minute == self@.minute,
    {
        self.minute
    }

    pub fn second(&self) -> (second: u8)
        ensures
            second == self@.second,
    {
        self.second
    }

    pub fn nanosecond(&self) -> (nanosecond: u32)
        ensures
            nanosecond == self@.nanosecond,
    {
        self.nanosecond
    }

    /// The moment as text, in the form that the store's date type prints.
    pub fn to_text(&self) -> (text: String)
        ensures
            self@.is_valid(),
            text@ == self@.text(),
    {
        proof {
            use_type_invariant(self);
        }
        print_date_time(
            self.year,
            self.ordinal,
            self.hour,
            self.minute,
            self.second,
            self.nanosecond,
        )
    }
}

} // verus!
