use vstd::prelude::*;
use vstd::string::*;

use crate::random::{uniform_u32, uniform_u8_inclusive};
use crate::text::{decimal, push_decimal, push_zero_padded, zero_padded};

verus! {

/// A calendar date: year, month, day.
pub type Date = (u32, u8, u8);

pub open spec fn max_u8(a: u8, b: u8) -> u8 {
    if a >= b { a } else { b }
}

pub open spec fn min_u8(a: u8, b: u8) -> u8 {
    if a <= b { a } else { b }
}

/// The longest a month may run: 29 days in February of a year divisible by four, 28 in other
/// Februaries, 31 in January, March, May, July, August, October and December, 30 otherwise.
pub open spec fn month_limit(year: u32, month: u8) -> u8 {
    if month == 2 {
        if year % 4 == 0 { 29 } else { 28 }
    } else if (month <= 7 && month % 2 == 1) || (month > 7 && month % 2 == 0) {
        31
    } else {
        30
    }
}

/// A drawn date brought into the window: in the first year month and day are raised to the
/// start's, in the last year lowered to the end's, and the day is cut to the month's length.
pub open spec fn spec_settle_date(drawn: Date, start: Date, end: Date) -> Date {
    let (year, month0, day0) = drawn;
    let (month, day) = if year == start.0 {
        (max_u8(month0, start.1), max_u8(day0, start.2))
    } else if year == end.0 {
        (min_u8(month0, end.1), min_u8(day0, end.2))
    } else {
        (month0, day0)
    };
    (year, month, min_u8(day, month_limit(year, month)))
}

/// Brings a drawn date into the window from `start` to `end`.
pub fn settle_date(drawn: Date, start: Date, end: Date) -> (r: Date)
    ensures
        r == spec_settle_date(drawn, start, end),
{
    let (year, mut month, mut day) = drawn;
    if year == start.0 {
        month = if month >= start.1 { month } else { start.1 };
        day = if day >= start.2 { day } else { start.2 };
    } else if year == end.0 {
        month = if month <= end.1 { month } else { end.1 };
        day = if day <= end.2 { day } else { end.2 };
    }
    let limit: u8 = if month == 2 {
        if year % 4 == 0 { 29 } else { 28 }
    } else if (month <= 7 && month % 2 == 1) || (month > 7 && month % 2 == 0) {
        31
    } else {
        30
    };
    (year, month, if day <= limit { day } else { limit })
}

/// A random date: a year drawn from `[start.0, end.0)`, a month from 1 to 12 and a day from 1
/// to 31, then settled into the window.
pub fn generate_random_date_between(rng: &mut rand::rngs::StdRng, start: Date, end: Date) -> (r: Date)
    requires
        start.0 < end.0,
    ensures
        exists|y: u32, m: u8, d: u8|
            start.0 <= y < end.0 && 1 <= m <= 12 && 1 <= d <= 31 && r == #[trigger] spec_settle_date(
                (y, m, d),
                start,
                end,
            ),
{
    let year = uniform_u32(rng, start.0, end.0);
    let month = uniform_u8_inclusive(rng, 1, 12);
    let day = uniform_u8_inclusive(rng, 1, 31);
    settle_date((year, month, day), start, end)
}

/// The date as `year-MM-DD`.
pub open spec fn date_text(d: Date) -> Seq<char> {
    decimal(d.0 as nat) + "-"@ + zero_padded(d.1 as nat, 2) + "-"@ + zero_padded(d.2 as nat, 2)
}

/// Writes a date as `year-MM-DD`.
pub fn format_date(d: Date) -> (r: String)
    ensures
        r@ == date_text(d),
{
    let mut s = String::new();
    push_decimal(&mut s, d.0 as u64);
    s.append("-");
    push_zero_padded(&mut s, d.1 as u64, 2);
    s.append("-");
    push_zero_padded(&mut s, d.2 as u64, 2);
    assert(s@ =~= date_text(d));
    s
}

/// A random date for the Astronomy Picture of the Day, from its first day to the last date the
/// archive is known to reach, as `year-MM-DD`.
pub fn generate_random_apod_date(rng: &mut rand::rngs::StdRng) -> (r: String)
    ensures
        exists|d: Date| r@ == #[trigger] date_text(d) && 1995 <= d.0 < 2023,
{
    let d = generate_random_date_between(rng, (1995, 6, 16), (2023, 8, 6));
    format_date(d)
}

} // verus!
