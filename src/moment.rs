//! A moment of the market's local time, read from the clock and written as
//! a file-name timestamp.
use chrono::Datelike;
use chrono::Timelike;
use chrono::DateTime;
use chrono::NaiveDate;
use chrono_tz::America::Sao_Paulo;
use vstd::prelude::*;

use crate::calendar::{days_in_month, iso_date_text, iso_date_text_injective, two_digits, two_digits_injective, Date};

verus! {

/// A date with the hour, minute and second of the day.
#[derive(Clone, Copy, Debug, PartialEq, Eq, Structural)]
pub struct Moment {
    pub date: Date,
    pub hour: u32,
    pub minute: u32,
    pub second: u32,
}

/// The `YYYY-MM-DD_HHh-MMm-SSs` form of a moment.
pub open spec fn timestamp_text(m: Moment) -> Seq<char> {
    iso_date_text(m.date) + seq!['_'] + two_digits(m.hour as int) + seq!['h', '-']
        + two_digits(m.minute as int) + seq!['m', '-'] + two_digits(m.second as int)
        + seq!['s']
}

/// Two moments with the same timestamp are the same moment.
pub proof fn timestamp_text_injective(m1: Moment, m2: Moment)
    requires
        m1.wf(),
        m2.wf(),
        timestamp_text(m1) == timestamp_text(m2),
    ensures
        m1 == m2,
{
    let t1 = timestamp_text(m1);
    let t2 = timestamp_text(m2);
    assert(iso_date_text(m1.date).len() == 10);
    assert(iso_date_text(m2.date).len() == 10);
    assert(t1.subrange(0, 10) =~= iso_date_text(m1.date));
    assert(t2.subrange(0, 10) =~= iso_date_text(m2.date));
    assert(t1.subrange(11, 13) =~= two_digits(m1.hour as int));
    assert(t2.subrange(11, 13) =~= two_digits(m2.hour as int));
    assert(t1.subrange(15, 17) =~= two_digits(m1.minute as int));
    assert(t2.subrange(15, 17) =~= two_digits(m2.minute as int));
    assert(t1.subrange(19, 21) =~= two_digits(m1.second as int));
    assert(t2.subrange(19, 21) =~= two_digits(m2.second as int));
    iso_date_text_injective(m1.date, m2.date);
    two_digits_injective(m1.hour as int, m2.hour as int);
    two_digits_injective(m1.minute as int, m2.minute as int);
    two_digits_injective(m1.second as int, m2.second as int);
}

impl Moment {
    pub open spec fn wf(&self) -> bool {
        &&& self.date.wf()
        &&& self.hour < 24
        &&& self.minute < 60
        &&& self.second < 60
    }

    /// Whether this moment names an existing second.
    pub fn is_valid(&self) -> (r: bool)
        ensures
            r == self.wf(),
    {
        self.date.is_valid() && self.hour < 24 && self.minute < 60 && self.second < 60
    }

    /// The moment with these parts, if it exists.
    pub fn new(date: Date, hour: u32, minute: u32, second: u32) -> (r: Option<Moment>)
        ensures
            r matches Some(m) ==> m == (Moment { date, hour, minute, second }),
            r is Some <==> (Moment { date, hour, minute, second }).wf(),
    {
        let m = Moment { date, hour, minute, second };
        if m.is_valid() {
            Some(m)
        } else {
            None
        }
    }
}

/// Relies on chrono's `NaiveDate::from_ymd_opt` and `NaiveDate::and_hms_opt`
/// (which give `Some` for an existing day and second) and
/// `NaiveDateTime::format` with `%Y-%m-%d_%Hh-%Mm-%Ss`: four zero-padded digits
/// for a year in 0..=9999, two for each other field, and the literal text between.
#[verifier::external_body]
pub(crate) fn timestamp(m: &Moment) -> (r: String)
    requires
        m.wf(),
    ensures
        r@ == timestamp_text(*m),
{
    let d = NaiveDate::from_ymd_opt(m.date.year, m.date.month, m.date.day).unwrap_or_default();
    let t = d.and_hms_opt(m.hour, m.minute, m.second).unwrap_or_default();
    t.format("%Y-%m-%d_%Hh-%Mm-%Ss").to_string()
}

/// Relies on std's `SystemTime::elapsed`, applied to `UNIX_EPOCH`: the whole
/// seconds from the epoch to now, or `None` when the clock reads an earlier
/// time. Nothing is promised of the reading itself.
#[verifier::external_body]
fn seconds_since_epoch() -> (r: Option<u64>) {
    match std::time::UNIX_EPOCH.elapsed() {
        Ok(d) => Some(d.as_secs()),
        Err(_) => None,
    }
}

/// Relies on chrono's `DateTime::from_timestamp`, which gives `None` for an
/// instant outside chrono's range, and `DateTime::with_timezone` with
/// chrono-tz's `America/Sao_Paulo`: the wall-clock time there at that
/// instant. chrono documents the ranges of the month, hour, minute and second
/// it reports, and that the day exists in its month; the year can be any that
/// chrono holds.
#[verifier::external_body]
fn sao_paulo_at(secs: i64) -> (r: Option<Moment>)
    ensures
        r matches Some(m) ==> {
            &&& 1 <= m.date.month <= 12
            &&& 1 <= m.date.day <= days_in_month(m.date.year as int, m.date.month as int)
            &&& m.hour < 24
            &&& m.minute < 60
            &&& m.second < 60
        },
{
    match DateTime::from_timestamp(secs, 0) {
        Some(t) => {
            let l = t.with_timezone(&Sao_Paulo);
            let date = Date { year: l.year(), month: l.month(), day: l.day() };
            Some(Moment { date, hour: l.hour(), minute: l.minute(), second: l.second() })
        },
        None => None,
    }
}

/// The current moment of the market's local time: a fresh reading of the
/// clock on every call. `None` when the clock reads a time before 1970 or one
/// whose year does not have four digits.
pub fn current_moment() -> (r: Option<Moment>)
    ensures
        r matches Some(m) ==> m.wf(),
{
    let secs = match seconds_since_epoch() {
        Some(s) => s,
        None => return None,
    };
    if secs > i64::MAX as u64 {
        return None;
    }
    let m = match sao_paulo_at(secs as i64) {
        Some(m) => m,
        None => return None,
    };
    Moment::new(m.date, m.hour, m.minute, m.second)
}

} // verus!
