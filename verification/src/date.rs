//! Calendar dates and timestamps, with the month arithmetic the expiry gate
//! needs.
//!
//! The renewal workflow only ever asks two things of time: "what is today
//! plus the renewal threshold in months" and "is one instant before
//! another".  Both are modelled here over plain values so that the expiry
//! decision is verified; the surrounding process converts whatever clock or
//! certificate representation it uses into these types.

use vstd::prelude::*;

verus! {

/// A calendar date in the proleptic Gregorian calendar.
#[derive(Clone, Copy, Debug, PartialEq, Eq, Structural)]
pub struct Date {
    pub year: u32,
    pub month: u8,
    pub day: u8,
}

/// A date with a time of day, at second granularity.
#[derive(Clone, Copy, Debug, PartialEq, Eq, Structural)]
pub struct Timestamp {
    pub date: Date,
    pub second_of_day: u32,
}

pub open spec fn is_leap_year(y: int) -> bool {
    (y % 4 == 0 && y % 100 != 0) || y % 400 == 0
}

pub open spec fn days_in_month(y: int, m: int) -> int {
    if m == 2 {
        if is_leap_year(y) {
            29
        } else {
            28
        }
    } else if m == 4 || m == 6 || m == 9 || m == 11 {
        30
    } else {
        31
    }
}

pub open spec fn date_wf(d: Date) -> bool {
    &&& 1 <= d.year <= 9999
    &&& 1 <= d.month <= 12
    &&& 1 <= d.day <= days_in_month(d.year as int, d.month as int)
}

pub open spec fn timestamp_wf(t: Timestamp) -> bool {
    date_wf(t.date) && t.second_of_day < 86400
}

/// Strict lexicographic order on (year, month, day).
pub open spec fn spec_date_lt(a: Date, b: Date) -> bool {
    ||| a.year < b.year
    ||| (a.year == b.year && a.month < b.month)
    ||| (a.year == b.year && a.month == b.month && a.day < b.day)
}

/// Strict order on timestamps: by date, then by time of day.
pub open spec fn spec_ts_lt(a: Timestamp, b: Timestamp) -> bool {
    spec_date_lt(a.date, b.date) || (a.date == b.date && a.second_of_day < b.second_of_day)
}

/// Whether `n` months can be added to `d` without leaving the supported
/// year range.
pub open spec fn months_addable(d: Date, n: int) -> bool {
    d.year * 12 + d.month - 1 + n <= 119999
}

/// `d` moved forward by `n` calendar months; the day of month is clamped to
/// the length of the target month, as certificate-expiry arithmetic
/// conventionally does.
pub open spec fn spec_add_months(d: Date, n: int) -> Date {
    let months0 = d.year * 12 + (d.month - 1) + n;
    let y = months0 / 12;
    let m = months0 % 12 + 1;
    let day = if d.day <= days_in_month(y, m) {
        d.day as int
    } else {
        days_in_month(y, m)
    };
    Date { year: y as u32, month: m as u8, day: day as u8 }
}

/// A timestamp moved forward by `n` calendar months, keeping its time of
/// day.
pub open spec fn spec_ts_add_months(t: Timestamp, n: int) -> Timestamp {
    Timestamp { date: spec_add_months(t.date, n), second_of_day: t.second_of_day }
}

pub fn leap_year(y: u32) -> (r: bool)
    ensures
        r == is_leap_year(y as int),
{
    (y % 4 == 0 && y % 100 != 0) || y % 400 == 0
}

pub fn month_length(y: u32, m: u8) -> (r: u8)
    requires
        1 <= m <= 12,
    ensures
        r as int == days_in_month(y as int, m as int),
{
    if m == 2 {
        if leap_year(y) {
            29
        } else {
            28
        }
    } else if m == 4 || m == 6 || m == 9 || m == 11 {
        30
    } else {
        31
    }
}

pub fn add_months(d: &Date, n: u32) -> (r: Date)
    requires
        date_wf(*d),
        months_addable(*d, n as int),
    ensures
        r == spec_add_months(*d, n as int),
        date_wf(r),
{
    let months0: u64 = d.year as u64 * 12 + (d.month as u64 - 1) + n as u64;
    let y: u32 = (months0 / 12) as u32;
    let m: u8 = (months0 % 12) as u8 + 1;
    let len: u8 = month_length(y, m);
    let day: u8 = if d.day <= len {
        d.day
    } else {
        len
    };
    Date { year: y, month: m, day }
}

/// The character for one decimal digit.
pub open spec fn digit_char(d: int) -> char {
    if d == 0 {
        '0'
    } else if d == 1 {
        '1'
    } else if d == 2 {
        '2'
    } else if d == 3 {
        '3'
    } else if d == 4 {
        '4'
    } else if d == 5 {
        '5'
    } else if d == 6 {
        '6'
    } else if d == 7 {
        '7'
    } else if d == 8 {
        '8'
    } else {
        '9'
    }
}

/// `n` rendered as exactly two decimal digits, zero-padded.
pub open spec fn two_digits(n: int) -> Seq<char> {
    seq![digit_char(n / 10 % 10), digit_char(n % 10)]
}

/// `n` rendered as exactly four decimal digits, zero-padded.
pub open spec fn four_digits(n: int) -> Seq<char> {
    seq![
        digit_char(n / 1000 % 10),
        digit_char(n / 100 % 10),
        digit_char(n / 10 % 10),
        digit_char(n % 10),
    ]
}

/// A date rendered as `YYYY-MM-DD`, the suffix used for archived
/// certificate chains.
pub open spec fn date_chars(d: Date) -> Seq<char> {
    four_digits(d.year as int) + seq!['-'] + two_digits(d.month as int) + seq!['-'] + two_digits(
        d.day as int,
    )
}

/// One decimal digit as a string slice.
fn digit_str(d: u32) -> (r: &'static str)
    requires
        d < 10,
    ensures
        r@ =~= seq![digit_char(d as int)],
{
    if d == 0 {
        proof {
            reveal_strlit("0");
        }
        "0"
    } else if d == 1 {
        proof {
            reveal_strlit("1");
        }
        "1"
    } else if d == 2 {
        proof {
            reveal_strlit("2");
        }
        "2"
    } else if d == 3 {
        proof {
            reveal_strlit("3");
        }
        "3"
    } else if d == 4 {
        proof {
            reveal_strlit("4");
        }
        "4"
    } else if d == 5 {
        proof {
            reveal_strlit("5");
        }
        "5"
    } else if d == 6 {
        proof {
            reveal_strlit("6");
        }
        "6"
    } else if d == 7 {
        proof {
            reveal_strlit("7");
        }
        "7"
    } else if d == 8 {
        proof {
            reveal_strlit("8");
        }
        "8"
    } else {
        proof {
            reveal_strlit("9");
        }
        "9"
    }
}

/// Appends `n` as two zero-padded decimal digits.
fn push_two_digits(s: &mut String, n: u32)
    requires
        n < 100,
    ensures
        final(s)@ == old(s)@ + two_digits(n as int),
{
    s.append(digit_str(n / 10 % 10));
    s.append(digit_str(n % 10));
    proof {
        assert(final(s)@ =~= old(s)@ + two_digits(n as int));
    }
}

/// Renders a date as `YYYY-MM-DD`.
pub fn format_date(d: &Date) -> (r: String)
    requires
        date_wf(*d),
    ensures
        r@ == date_chars(*d),
{
    let mut s = String::new();
    s.append(digit_str(d.year / 1000 % 10));
    s.append(digit_str(d.year / 100 % 10));
    s.append(digit_str(d.year / 10 % 10));
    s.append(digit_str(d.year % 10));
    proof {
        reveal_strlit("-");
    }
    s.append("-");
    push_two_digits(&mut s, d.month as u32);
    s.append("-");
    push_two_digits(&mut s, d.day as u32);
    proof {
        assert(s@ =~= date_chars(*d));
    }
    s
}

pub fn ts_lt(a: &Timestamp, b: &Timestamp) -> (r: bool)
    ensures
        r == spec_ts_lt(*a, *b),
{
    if a.date.year != b.date.year {
        a.date.year < b.date.year
    } else if a.date.month != b.date.month {
        a.date.month < b.date.month
    } else if a.date.day != b.date.day {
        a.date.day < b.date.day
    } else {
        a.second_of_day < b.second_of_day
    }
}

} // verus!
