//! Wall-clock readings and their text.

use crate::text::{is_digit, lemma_decimal_len, lemma_zero_padded_digits, zero_padded};
use vstd::prelude::*;

verus! {

/// First year of the calendar that readings are taken from.
pub const MIN_YEAR: i32 = -262_143;

/// Last year of the calendar that readings are taken from.
pub const MAX_YEAR: i32 = 262_142;

/// Whether `year` has a 29th of February in the proleptic Gregorian calendar.
pub open spec fn is_leap_year(year: int) -> bool {
    year % 4 == 0 && (year % 100 != 0 || year % 400 == 0)
}

/// The number of days of `month` in `year`.
pub open spec fn days_in_month(year: int, month: int) -> int {
    if month == 2 {
        if is_leap_year(year) {
            29
        } else {
            28
        }
    } else if month == 4 || month == 6 || month == 9 || month == 11 {
        30
    } else {
        31
    }
}

/// The year field: four digits for the years 0 to 9999, and a sign followed
/// by at least four digits for every other year.
pub open spec fn year_text(year: int) -> Seq<char> {
    if 0 <= year <= 9999 {
        zero_padded(year as nat, 4)
    } else if year < 0 {
        seq!['-'] + zero_padded((-year) as nat, 4)
    } else {
        seq!['+'] + zero_padded(year as nat, 4)
    }
}

/// What a [`Timestamp`] holds, as plain values.
///
/// `nanosecond` counts from the start of the whole second in `second`.
/// During a leap second `second` stays at 59 and `nanosecond` runs from
/// 1,000,000,000 to 1,999,999,999.
pub struct Reading {
    pub year: int,
    pub month: int,
    pub day: int,
    pub hour: int,
    pub minute: int,
    pub second: int,
    pub nanosecond: int,
}

impl Reading {
    /// The date exists in the calendar, the time exists on the clock, and
    /// the nanoseconds pass 999,999,999 only in a leap second.
    pub open spec fn valid(self) -> bool {
        &&& MIN_YEAR <= self.year <= MAX_YEAR
        &&& 1 <= self.month <= 12
        &&& 1 <= self.day <= days_in_month(self.year, self.month)
        &&& 0 <= self.hour <= 23
        &&& 0 <= self.minute <= 59
        &&& 0 <= self.second <= 59
        &&& 0 <= self.nanosecond <= 1_999_999_999
        &&& (self.nanosecond >= 1_000_000_000 ==> self.second == 59)
    }

    /// The second as it is shown: 60 during a leap second.
    pub open spec fn shown_second(self) -> nat {
        (self.second + self.nanosecond / 1_000_000_000) as nat
    }

    /// The milliseconds within the shown second.
    pub open spec fn millis(self) -> nat {
        (self.nanosecond / 1_000_000 % 1000) as nat
    }

    /// The date part, `YYYY-MM-DD`.
    pub open spec fn date_text(self) -> Seq<char> {
        year_text(self.year) + seq!['-'] + zero_padded(self.month as nat, 2) + seq!['-']
            + zero_padded(self.day as nat, 2)
    }

    /// The time part, `HH:MM:SS.mmm`.
    pub open spec fn time_text(self) -> Seq<char> {
        zero_padded(self.hour as nat, 2) + seq![':'] + zero_padded(self.minute as nat, 2)
            + seq![':'] + zero_padded(self.shown_second(), 2) + seq!['.'] + zero_padded(
            self.millis(),
            3,
        )
    }

    /// The whole field, `YYYY-MM-DD HH:MM:SS.mmm`.
    pub open spec fn text(self) -> Seq<char> {
        self.date_text() + seq![' '] + self.time_text()
    }
}

/// A reading of the local wall clock. Every value of this type is a valid
/// reading: see [`Reading::valid`].
#[derive(Clone, Copy, Debug, PartialEq, Eq, Structural)]
pub struct Timestamp {
    year: i32,
    month: u32,
    day: u32,
    hour: u32,
    minute: u32,
    second: u32,
    nanosecond: u32,
}

impl View for Timestamp {
    type V = Reading;

    closed spec fn view(&self) -> Reading {
        Reading {
            year: self.year as int,
            month: self.month as int,
            day: self.day as int,
            hour: self.hour as int,
            minute: self.minute as int,
            second: self.second as int,
            nanosecond: self.nanosecond as int,
        }
    }
}

/// The number of days of `month` in `year`.
fn month_length(year: i32, month: u32) -> (days: u32)
    requires
        MIN_YEAR <= year <= MAX_YEAR,
    ensures
        days == days_in_month(year as int, month as int),
{
    if month == 2 {
        // 262,400 is a multiple of 400, so the shifted year is positive and
        // leaves the same remainders.
        let shifted: u32 = (year + 262_400) as u32;
        if shifted % 4 == 0 && (shifted % 100 != 0 || shifted % 400 == 0) {
            29
        } else {
            28
        }
    } else if month == 4 || month == 6 || month == 9 || month == 11 {
        30
    } else {
        31
    }
}

/// The text of a reading.
///
/// Trusted: the body builds the date with `chrono::NaiveDate::from_ymd_opt`,
/// adds the time with `NaiveDate::and_hms_nano_opt`, and renders the result
/// with `NaiveDateTime::format` on the pattern `%Y-%m-%d %H:%M:%S.%3f`. Of a
/// valid reading chrono accepts both steps, and the contract claims that the
/// rendering is what chrono documents for that pattern: the year on four
/// digits, or signed outside 0 to 9999; month, day, hour and minute on two;
/// the second on two, 60 in a leap second; three digits of milliseconds.
#[verifier::external_body]
fn chrono_text(at: &Timestamp) -> (out: Option<String>)
    requires
        at@.valid(),
    ensures
        out is Some,
        out.unwrap()@ == at@.text(),
{
    let date = chrono::NaiveDate::from_ymd_opt(at.year, at.month, at.day)?;
    let moment = date.and_hms_nano_opt(at.hour, at.minute, at.second, at.nanosecond)?;
    Some(moment.format("%Y-%m-%d %H:%M:%S.%3f").to_string())
}

impl Timestamp {
    /// Every value is a valid reading.
    #[verifier::type_invariant]
    pub open spec fn wf(self) -> bool {
        self@.valid()
    }

    /// A reading from its fields, or `None` where they make no valid
    /// reading.
    pub fn new(
        year: i32,
        month: u32,
        day: u32,
        hour: u32,
        minute: u32,
        second: u32,
        nanosecond: u32,
    ) -> (out: Option<Timestamp>)
        ensures
            ({
                let reading = Reading {
                    year: year as int,
                    month: month as int,
                    day: day as int,
                    hour: hour as int,
                    minute: minute as int,
                    second: second as int,
                    nanosecond: nanosecond as int,
                };
                match out {
                    Some(at) => reading.valid() && at@ == reading,
                    None => !reading.valid(),
                }
            }),
    {
        if year < MIN_YEAR || year > MAX_YEAR || month < 1 || month > 12 {
            return None;
        }
        if day < 1 || day > month_length(year, month) {
            return None;
        }
        if hour > 23 || minute > 59 || second > 59 || nanosecond > 1_999_999_999 {
            return None;
        }
        if nanosecond >= 1_000_000_000 && second != 59 {
            return None;
        }
        Some(Timestamp { year, month, day, hour, minute, second, nanosecond })
    }

    /// The year.
    pub fn year(&self) -> (year: i32)
        ensures
            year == self@.year,
    {
        self.year
    }

    /// The month, from 1.
    pub fn month(&self) -> (month: u32)
        ensures
            month == self@.month,
    {
        self.month
    }

    /// The day of the month, from 1.
    pub fn day(&self) -> (day: u32)
        ensures
            day == self@.day,
    {
        self.day
    }

    /// The hour, from 0.
    pub fn hour(&self) -> (hour: u32)
        ensures
            hour == self@.hour,
    {
        self.hour
    }

    /// The minute.
    pub fn minute(&self) -> (minute: u32)
        ensures
            minute == self@.minute,
    {
        self.minute
    }

    /// The whole second, never above 59.
    pub fn second(&self) -> (second: u32)
        ensures
            second == self@.second,
    {
        self.second
    }

    /// The nanoseconds since the whole second.
    pub fn nanosecond(&self) -> (nanosecond: u32)
        ensures
            nanosecond == self@.nanosecond,
    {
        self.nanosecond
    }

    /// Writes the reading as `YYYY-MM-DD HH:MM:SS.mmm`.
    pub fn render(&self) -> (out: String)
        ensures
            out@ == self@.text(),
    {
        proof {
            use_type_invariant(self);
        }
        match chrono_text(self) {
            Some(text) => text,
            // Not reached: every value of this type is a valid reading.
            None => String::new(),
        }
    }
}

/// The time part of every valid reading is 12 characters long: two digits
/// each for hour, minute and second, `:` between them, and a `.` before
/// exactly three digits of milliseconds. Whatever the year, the whole text
/// ends in it.
pub proof fn lemma_time_shape(t: Reading)
    requires
        t.valid(),
    ensures
        t.time_text().len() == 12,
        t.time_text()[2] == ':',
        t.time_text()[5] == ':',
        t.time_text()[8] == '.',
        forall|i: int|
            0 <= i < 12 && i != 2 && i != 5 && i != 8 ==> is_digit(#[trigger] t.time_text()[i]),
        t.text().len() >= 12,
        t.text().subrange(t.text().len() - 12, t.text().len() as int) == t.time_text(),
{
    let h = zero_padded(t.hour as nat, 2);
    let mi = zero_padded(t.minute as nat, 2);
    let s = zero_padded(t.shown_second(), 2);
    let ms = zero_padded(t.millis(), 3);
    lemma_decimal_len(t.hour as nat);
    lemma_decimal_len(t.minute as nat);
    lemma_decimal_len(t.shown_second());
    lemma_decimal_len(t.millis());
    lemma_zero_padded_digits(t.hour as nat, 2);
    lemma_zero_padded_digits(t.minute as nat, 2);
    lemma_zero_padded_digits(t.shown_second(), 2);
    lemma_zero_padded_digits(t.millis(), 3);
    let time = t.time_text();
    assert(time =~= h + seq![':'] + mi + seq![':'] + s + seq!['.'] + ms);
    assert forall|i: int| 0 <= i < 12 && i != 2 && i != 5 && i != 8 implies is_digit(
        #[trigger] time[i],
    ) by {
        if i < 2 {
            assert(time[i] == h[i]);
        } else if i < 5 {
            assert(time[i] == mi[i - 3]);
        } else if i < 8 {
            assert(time[i] == s[i - 6]);
        } else {
            assert(time[i] == ms[i - 9]);
        }
    }
    assert(t.text().subrange(t.text().len() - 12, t.text().len() as int) =~= time);
}

/// The date part of a valid reading in the years 0 to 9999 is 10 characters
/// long: four digits of year, two each of month and day, and `-` between
/// them.
pub proof fn lemma_date_shape(t: Reading)
    requires
        t.valid(),
        0 <= t.year <= 9999,
    ensures
        t.date_text().len() == 10,
        t.date_text()[4] == '-',
        t.date_text()[7] == '-',
        forall|i: int| 0 <= i < 10 && i != 4 && i != 7 ==> is_digit(#[trigger] t.date_text()[i]),
{
    let y = zero_padded(t.year as nat, 4);
    let mo = zero_padded(t.month as nat, 2);
    let d = zero_padded(t.day as nat, 2);
    lemma_decimal_len(t.year as nat);
    lemma_decimal_len(t.month as nat);
    lemma_decimal_len(t.day as nat);
    lemma_zero_padded_digits(t.year as nat, 4);
    lemma_zero_padded_digits(t.month as nat, 2);
    lemma_zero_padded_digits(t.day as nat, 2);
    let date = t.date_text();
    assert(date =~= y + seq!['-'] + mo + seq!['-'] + d);
    assert forall|i: int| 0 <= i < 10 && i != 4 && i != 7 implies is_digit(#[trigger] date[i]) by {
        if i < 4 {
            assert(date[i] == y[i]);
        } else if i < 7 {
            assert(date[i] == mo[i - 5]);
        } else {
            assert(date[i] == d[i - 8]);
        }
    }
}

/// The text of a valid reading in the years 0 to 9999 is 23 characters long:
/// zero-padded digits, `-` between the date's parts, a space, `:` between the
/// time's parts, and a `.` before exactly three digits of milliseconds.
pub proof fn lemma_timestamp_shape(t: Reading)
    requires
        t.valid(),
        0 <= t.year <= 9999,
    ensures
        t.text().len() == 23,
        t.text()[4] == '-',
        t.text()[7] == '-',
        t.text()[10] == ' ',
        t.text()[13] == ':',
        t.text()[16] == ':',
        t.text()[19] == '.',
        forall|i: int|
            0 <= i < 23 && i != 4 && i != 7 && i != 10 && i != 13 && i != 16 && i != 19
                ==> is_digit(#[trigger] t.text()[i]),
{
    lemma_date_shape(t);
    lemma_time_shape(t);
    let date = t.date_text();
    let time = t.time_text();
    let whole = t.text();
    assert forall|i: int|
        0 <= i < 23 && i != 4 && i != 7 && i != 10 && i != 13 && i != 16 && i != 19
            implies is_digit(#[trigger] whole[i]) by {
        if i < 10 {
            assert(whole[i] == date[i]);
        } else {
            assert(whole[i] == time[i - 11]);
        }
    }
    assert(whole[13] == time[2]);
    assert(whole[16] == time[5]);
    assert(whole[19] == time[8]);
    assert(whole[4] == date[4]);
    assert(whole[7] == date[7]);
}

} // verus!
