//! Calendar dates and the business-day rule.
use chrono::Datelike;
use chrono::NaiveDate;
use vstd::prelude::*;

verus! {

/// The smallest year that a `Date` may hold.
pub const MIN_YEAR: i32 = 1;

/// The largest year that a `Date` may hold: every year has four digits.
pub const MAX_YEAR: i32 = 9999;

/// A day of the proleptic Gregorian calendar.
#[derive(Clone, Copy, Debug, PartialEq, Eq, Structural)]
pub struct Date {
    pub year: i32,
    pub month: u32,
    pub day: u32,
}

pub open spec fn is_leap_year(y: int) -> bool {
    (y % 4 == 0 && y % 100 != 0) || y % 400 == 0
}

pub open spec fn days_in_month(y: int, m: int) -> int {
    if m == 2 {
        if is_leap_year(y) { 29 } else { 28 }
    } else if m == 4 || m == 6 || m == 9 || m == 11 {
        30
    } else {
        31
    }
}

/// Offsets of the months in the weekday formula (Sakamoto's table).
pub open spec fn month_offset(m: int) -> int {
    if m == 1 { 0 }
    else if m == 2 { 3 }
    else if m == 3 { 2 }
    else if m == 4 { 5 }
    else if m == 5 { 0 }
    else if m == 6 { 3 }
    else if m == 7 { 5 }
    else if m == 8 { 1 }
    else if m == 9 { 4 }
    else if m == 10 { 6 }
    else if m == 11 { 2 }
    else { 4 }
}

/// ISO weekday number of a date: 1 is Monday, 7 is Sunday.
pub open spec fn weekday_number(y: int, m: int, d: int) -> int {
    let yy = if m < 3 { y - 1 } else { y };
    let from_sunday = (yy + yy / 4 - yy / 100 + yy / 400 + month_offset(m) + d) % 7;
    if from_sunday == 0 { 7 } else { from_sunday }
}

impl Date {
    /// The year, month and day name an existing day with a four-digit year.
    pub open spec fn wf(&self) -> bool {
        &&& MIN_YEAR <= self.year <= MAX_YEAR
        &&& 1 <= self.month <= 12
        &&& 1 <= self.day <= days_in_month(self.year as int, self.month as int)
    }

    pub open spec fn weekday(&self) -> int {
        weekday_number(self.year as int, self.month as int, self.day as int)
    }

    /// Whether this date names an existing day.
    pub fn is_valid(&self) -> (r: bool)
        ensures
            r == self.wf(),
    {
        if self.year < MIN_YEAR || self.year > MAX_YEAR || self.month < 1 || self.month > 12
            || self.day < 1 {
            return false;
        }
        self.day <= month_length(self.year, self.month)
    }

    /// The date with these parts, if it exists.
    pub fn new(year: i32, month: u32, day: u32) -> (r: Option<Date>)
        ensures
            r matches Some(d) ==> d == (Date { year, month, day }),
            r is Some <==> (Date { year, month, day }).wf(),
    {
        let d = Date { year, month, day };
        if d.is_valid() {
            Some(d)
        } else {
            None
        }
    }
}

fn month_length(year: i32, month: u32) -> (r: u32)
    requires
        MIN_YEAR <= year <= MAX_YEAR,
        1 <= month <= 12,
    ensures
        r as int == days_in_month(year as int, month as int),
{
    if month == 2 {
        if (year % 4 == 0 && year % 100 != 0) || year % 400 == 0 {
            29
        } else {
            28
        }
    } else if month == 4 || month == 6 || month == 9 || month == 11 {
        30
    } else {
        31
    }
}

/// Relies on chrono's `NaiveDate::from_ymd_opt` (which gives `Some` for an
/// existing day) and `Datelike::weekday`, read through
/// `Weekday::number_from_monday`: the ISO weekday of the day, which
/// `weekday_number` computes by Sakamoto's method.
#[verifier::external_body]
fn iso_weekday(d: &Date) -> (r: u32)
    requires
        d.wf(),
    ensures
        r as int == d.weekday(),
{
    let n = NaiveDate::from_ymd_opt(d.year, d.month, d.day).unwrap_or_default();
    n.weekday().number_from_monday()
}

/// The decimal digit `k`, for `0 <= k <= 9`.
pub open spec fn digit(k: int) -> char {
    if k == 0 { '0' }
    else if k == 1 { '1' }
    else if k == 2 { '2' }
    else if k == 3 { '3' }
    else if k == 4 { '4' }
    else if k == 5 { '5' }
    else if k == 6 { '6' }
    else if k == 7 { '7' }
    else if k == 8 { '8' }
    else { '9' }
}

/// `n` written with two digits, zero-padded.
pub open spec fn two_digits(n: int) -> Seq<char> {
    seq![digit(n / 10), digit(n % 10)]
}

/// `n` written with four digits, zero-padded.
pub open spec fn four_digits(n: int) -> Seq<char> {
    seq![digit(n / 1000), digit(n / 100 % 10), digit(n / 10 % 10), digit(n % 10)]
}

proof fn digit_injective(a: int, b: int)
    requires
        0 <= a < 10,
        0 <= b < 10,
        digit(a) == digit(b),
    ensures
        a == b,
{
}

/// Two numbers below a hundred with the same two digits are equal.
pub proof fn two_digits_injective(a: int, b: int)
    requires
        0 <= a < 100,
        0 <= b < 100,
        two_digits(a) == two_digits(b),
    ensures
        a == b,
{
    assert(two_digits(a)[0] == two_digits(b)[0]);
    assert(two_digits(a)[1] == two_digits(b)[1]);
    digit_injective(a / 10, b / 10);
    digit_injective(a % 10, b % 10);
}

/// Two numbers below ten thousand with the same four digits are equal.
pub proof fn four_digits_injective(a: int, b: int)
    requires
        0 <= a < 10000,
        0 <= b < 10000,
        four_digits(a) == four_digits(b),
    ensures
        a == b,
{
    assert(four_digits(a)[0] == four_digits(b)[0]);
    assert(four_digits(a)[1] == four_digits(b)[1]);
    assert(four_digits(a)[2] == four_digits(b)[2]);
    assert(four_digits(a)[3] == four_digits(b)[3]);
    digit_injective(a / 1000, b / 1000);
    digit_injective(a / 100 % 10, b / 100 % 10);
    digit_injective(a / 10 % 10, b / 10 % 10);
    digit_injective(a % 10, b % 10);
}

/// The `YYYY-MM-DD` form of a date.
pub open spec fn iso_date_text(d: Date) -> Seq<char> {
    four_digits(d.year as int) + seq!['-'] + two_digits(d.month as int) + seq!['-']
        + two_digits(d.day as int)
}

/// Two dates with the same `YYYY-MM-DD` form are the same date.
pub proof fn iso_date_text_injective(d1: Date, d2: Date)
    requires
        d1.wf(),
        d2.wf(),
        iso_date_text(d1) == iso_date_text(d2),
    ensures
        d1 == d2,
{
    let t1 = iso_date_text(d1);
    let t2 = iso_date_text(d2);
    assert(t1.subrange(0, 4) =~= four_digits(d1.year as int));
    assert(t2.subrange(0, 4) =~= four_digits(d2.year as int));
    assert(t1.subrange(5, 7) =~= two_digits(d1.month as int));
    assert(t2.subrange(5, 7) =~= two_digits(d2.month as int));
    assert(t1.subrange(8, 10) =~= two_digits(d1.day as int));
    assert(t2.subrange(8, 10) =~= two_digits(d2.day as int));
    four_digits_injective(d1.year as int, d2.year as int);
    two_digits_injective(d1.month as int, d2.month as int);
    two_digits_injective(d1.day as int, d2.day as int);
}

/// A list of strings as the sequence of their texts.
pub open spec fn texts(v: Seq<String>) -> Seq<Seq<char>> {
    v.map_values(|s: String| s@)
}

/// A business day is a Monday to Friday whose `YYYY-MM-DD` form is not a holiday.
pub open spec fn business_day(d: Date, holidays: Seq<Seq<char>>) -> bool {
    &&& 1 <= d.weekday() <= 5
    &&& !holidays.contains(iso_date_text(d))
}

/// Relies on chrono's `NaiveDate::from_ymd_opt` (which gives `Some` for an
/// existing day) and `NaiveDate::format` with
/// `%Y-%m-%d`: four zero-padded digits for a year in 0..=9999, then two for
/// the month and two for the day.
#[verifier::external_body]
fn iso_date(d: &Date) -> (r: String)
    requires
        d.wf(),
    ensures
        r@ == iso_date_text(*d),
{
    let n = NaiveDate::from_ymd_opt(d.year, d.month, d.day).unwrap_or_default();
    n.format("%Y-%m-%d").to_string()
}

/// Whether `d` falls on Monday to Friday.
pub fn is_weekday(d: &Date) -> (r: bool)
    requires
        d.wf(),
    ensures
        r == (1 <= d.weekday() <= 5),
{
    let w = iso_weekday(d);
    1 <= w && w <= 5
}

/// Whether `d` is a business day: Monday to Friday, and its `YYYY-MM-DD`
/// form is not among `holidays`.
pub fn is_business_day(d: &Date, holidays: &[String]) -> (r: bool)
    requires
        d.wf(),
    ensures
        r == business_day(*d, texts(holidays@)),
        r == (1 <= d.weekday() <= 5 && !texts(holidays@).contains(iso_date_text(*d))),
{
    if !is_weekday(d) {
        return false;
    }
    let text = iso_date(d);
    let mut i: usize = 0;
    while i < holidays.len()
        invariant
            0 <= i <= holidays.len(),
            text@ == iso_date_text(*d),
            forall|j: int| 0 <= j < i ==> holidays@[j]@ != text@,
        decreases holidays.len() - i,
    {
        if holidays[i] == text {
            assert(texts(holidays@)[i as int] == iso_date_text(*d));
            return false;
        }
        i += 1;
    }
    assert(!texts(holidays@).contains(iso_date_text(*d))) by {
        if texts(holidays@).contains(iso_date_text(*d)) {
            let j = choose|j: int| 0 <= j < texts(holidays@).len() && texts(holidays@)[j] == iso_date_text(*d);
            assert(holidays@[j]@ == text@);
        }
    }
    true
}

} // verus!
