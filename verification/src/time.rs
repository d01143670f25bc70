//! The local date and time as text.

use crate::decimal::digits;
use vstd::prelude::*;

verus! {

/// The first year that a date can have.
pub const MIN_YEAR: i32 = -262_143;

/// The last year that a date can have.
pub const MAX_YEAR: i32 = 262_142;

/// Whether `year` has a 29th of February, by the Gregorian rule.
pub open spec fn is_leap_year(year: int) -> bool {
    year % 4 == 0 && (year % 100 != 0 || year % 400 == 0)
}

/// The number of days of `month` in `year`.
pub open spec fn days_in_month(year: int, month: int) -> int {
    if month == 2 {
        if is_leap_year(year) {
            29
        } else {
            28
        }
    } else if month == 4 || month == 6 || month == 9 || month == 11 {
        30
    } else {
        31
    }
}

/// Whether the calendar has this day.
pub open spec fn is_date(year: int, month: int, day: int) -> bool {
    &&& MIN_YEAR <= year <= MAX_YEAR
    &&& 1 <= month <= 12
    &&& 1 <= day <= days_in_month(year, month)
}

/// Whether the clock has this time. A leap second is the 59th second with
/// a billion nanoseconds or more.
pub open spec fn is_time(hour: int, minute: int, second: int, nanosecond: int) -> bool {
    &&& 0 <= hour < 24
    &&& 0 <= minute < 60
    &&& 0 <= second < 60
    &&& 0 <= nanosecond < 2_000_000_000
    &&& nanosecond >= 1_000_000_000 ==> second == 59
}

/// The decimal digits of `n` with zeros in front of them until they are
/// `width` characters long.
pub open spec fn zero_padded(n: nat, width: nat) -> Seq<char> {
    if digits(n).len() >= width {
        digits(n)
    } else {
        Seq::new((width - digits(n).len()) as nat, |i: int| '0') + digits(n)
    }
}

/// The year with four digits; a year before 0 or after 9999 has its sign in
/// front and at least four digits.
pub open spec fn year_text(year: int) -> Seq<char> {
    if 0 <= year <= 9999 {
        zero_padded(year as nat, 4)
    } else if year < 0 {
        seq!['-'] + zero_padded((-year) as nat, 4)
    } else {
        seq!['+'] + zero_padded(year as nat, 4)
    }
}

/// A date and a time of day, as the local clock shows them.
#[derive(Debug, Clone, Copy)]
pub struct LocalDateTime {
    year: i32,
    month: u32,
    day: u32,
    hour: u32,
    minute: u32,
    second: u32,
    nanosecond: u32,
}

/// What a `LocalDateTime` holds.
pub struct LocalDateTimeView {
    pub year: int,
    pub month: int,
    pub day: int,
    pub hour: int,
    pub minute: int,
    pub second: int,
    pub nanosecond: int,
}

impl LocalDateTimeView {
    /// Whether the calendar has the day and the clock has the time.
    pub open spec fn valid(self) -> bool {
        &&& is_date(self.year, self.month, self.day)
        &&& is_time(self.hour, self.minute, self.second, self.nanosecond)
    }

    /// The date as `YYYY-MM-DD`.
    pub open spec fn date_text(self) -> Seq<char> {
        year_text(self.year) + seq!['-'] + zero_padded(self.month as nat, 2) + seq!['-']
            + zero_padded(self.day as nat, 2)
    }

    /// The time as `HH:MM:SS`, on the 24-hour clock. A leap second reads 60.
    pub open spec fn time_text(self) -> Seq<char> {
        zero_padded(self.hour as nat, 2) + seq![':'] + zero_padded(self.minute as nat, 2) + seq![
            ':',
        ] + zero_padded((self.second + self.nanosecond / 1_000_000_000) as nat, 2)
    }

    /// The date, one space, the time.
    pub open spec fn datetime_text(self) -> Seq<char> {
        self.date_text() + seq![' '] + self.time_text()
    }
}

impl View for LocalDateTime {
    type V = LocalDateTimeView;

    closed spec fn view(&self) -> LocalDateTimeView {
        LocalDateTimeView {
            year: self.year as int,
            month: self.month as int,
            day: self.day as int,
            hour: self.hour as int,
            minute: self.minute as int,
            second: self.second as int,
            nanosecond: self.nanosecond as int,
        }
    }
}

impl LocalDateTime {
    #[verifier::type_invariant]
    spec fn inv(self) -> bool {
        self@.valid()
    }

    /// The moment with these readings, where the calendar has the day and
    /// the clock has the time.
    pub fn new(
        year: i32,
        month: u32,
        day: u32,
        hour: u32,
        minute: u32,
        second: u32,
        nanosecond: u32,
    ) -> (moment: Option<LocalDateTime>)
        ensures
            moment is Some <==> is_date(year as int, month as int, day as int) && is_time(
                hour as int,
                minute as int,
                second as int,
                nanosecond as int,
            ),
            moment matches Some(m) ==> m@ == (LocalDateTimeView {
                year: year as int,
                month: month as int,
                day: day as int,
                hour: hour as int,
                minute: minute as int,
                second: second as int,
                nanosecond: nanosecond as int,
            }),
    {
        if year < MIN_YEAR || year > MAX_YEAR || month < 1 || month > 12 || day < 1 {
            return None;
        }
        if day > month_length(year, month) {
            return None;
        }
        if hour >= 24 || minute >= 60 || second >= 60 || nanosecond >= 2_000_000_000 {
            return None;
        }
        if nanosecond >= 1_000_000_000 && second != 59 {
            return None;
        }
        Some(LocalDateTime { year, month, day, hour, minute, second, nanosecond })
    }
}

/// The number of days of `month` in `year`.
fn month_length(year: i32, month: u32) -> (days: u32)
    requires
        MIN_YEAR <= year <= MAX_YEAR,
        1 <= month <= 12,
    ensures
        days == days_in_month(year as int, month as int),
{
    if month == 2 {
        // The calendar repeats every 400 years, so a shifted year tells as much.
        let shifted: u32 = (year + 262_400) as u32;
        if shifted % 4 == 0 && (shifted % 100 != 0 || shifted % 400 == 0) {
            29
        } else {
            28
        }
    } else if month == 4 || month == 6 || month == 9 || month == 11 {
        30
    } else {
        31
    }
}

/// The date of `local` as `YYYY-MM-DD`.
pub fn date_local(local: &LocalDateTime) -> (text: String)
    ensures
        local@.valid(),
        text@ == local@.date_text(),
{
    proof {
        use_type_invariant(local);
    }
    format_date(local.year, local.month, local.day)
}

/// The time of `local` as `HH:MM:SS`.
pub fn time_local(local: &LocalDateTime) -> (text: String)
    ensures
        local@.valid(),
        text@ == local@.time_text(),
{
    proof {
        use_type_invariant(local);
    }
    format_time(local.hour, local.minute, local.second, local.nanosecond)
}

/// `chrono::NaiveDate::format` with the pattern `%Y-%m-%d`, on the date that
/// `chrono::NaiveDate::from_ymd_opt` makes of the three numbers. For a day
/// that the calendar has, chrono makes the date; the pattern then gives the
/// year with four digits (signed, and with at least four digits, outside 0 to
/// 9999), the month and the day with two digits each, and `-` between them.
#[verifier::external_body]
fn format_date(year: i32, month: u32, day: u32) -> (text: String)
    requires
        is_date(year as int, month as int, day as int),
    ensures
        text@ == year_text(year as int) + seq!['-'] + zero_padded(month as nat, 2) + seq!['-']
            + zero_padded(day as nat, 2),
{
    chrono::NaiveDate::from_ymd_opt(year, month, day).unwrap().format("%Y-%m-%d").to_string()
}

/// `chrono::NaiveTime::format` with the pattern `%H:%M:%S`, on the time that
/// `chrono::NaiveTime::from_hms_nano_opt` makes of the four numbers. For a
/// time that the clock has, chrono makes the time; the pattern then gives
/// hour, minute and second with two digits each and `:` between them, the
/// second counted one higher within a leap second.
#[verifier::external_body]
fn format_time(hour: u32, minute: u32, second: u32, nanosecond: u32) -> (text: String)
    requires
        is_time(hour as int, minute as int, second as int, nanosecond as int),
    ensures
        text@ == zero_padded(hour as nat, 2) + seq![':'] + zero_padded(minute as nat, 2) + seq![
            ':',
        ] + zero_padded((second + nanosecond / 1_000_000_000) as nat, 2),
{
    chrono::NaiveTime::from_hms_nano_opt(hour, minute, second, nanosecond).unwrap().format(
        "%H:%M:%S",
    ).to_string()
}

} // verus!
