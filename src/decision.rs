//! The hour window and the decision to run now.
use vstd::prelude::*;

use crate::calendar::{business_day, is_business_day, iso_date_text, texts, Date};

verus! {

/// The hour `h` lies in the window from `start` to `end`, both included.
pub open spec fn within(h: int, start: int, end: int) -> bool {
    start <= h <= end
}

/// The collector runs when forced, or on a business day inside the window.
pub open spec fn run_now(
    force: bool,
    d: Date,
    h: int,
    holidays: Seq<Seq<char>>,
    start: int,
    end: int,
) -> bool {
    force || (business_day(d, holidays) && within(h, start, end))
}

/// Whether `hour` lies between `start` and `end`, both included. A window
/// whose start comes after its end holds no hour.
pub fn in_window(hour: u32, start: u32, end: u32) -> (r: bool)
    ensures
        r == within(hour as int, start as int, end as int),
        r == (start <= hour && hour <= end),
{
    start <= hour && hour <= end
}

/// Whether the collector runs now: always when `force` holds, otherwise on a
/// business day whose `hour` lies in the window.
pub fn should_run(
    force: bool,
    date: &Date,
    hour: u32,
    holidays: &[String],
    start: u32,
    end: u32,
) -> (r: bool)
    requires
        date.wf(),
    ensures
        r == run_now(force, *date, hour as int, texts(holidays@), start as int, end as int),
{
    if force {
        return true;
    }
    is_business_day(date, holidays) && in_window(hour, start, end)
}

/// A Saturday or a Sunday is never a business day, whatever the holidays; a
/// date whose `YYYY-MM-DD` form is a holiday is not one either; every other
/// date is one.
pub proof fn business_day_law(d: Date, holidays: Seq<Seq<char>>)
    requires
        d.wf(),
    ensures
        d.weekday() == 6 || d.weekday() == 7 ==> !business_day(d, holidays),
        holidays.contains(iso_date_text(d)) ==> !business_day(d, holidays),
        1 <= d.weekday() <= 5 && !holidays.contains(iso_date_text(d)) ==> business_day(d, holidays),
{
}

/// Both ends of a window lie inside it.
pub proof fn window_bounds_law(start: int, end: int)
    requires
        start <= end,
    ensures
        within(start, start, end),
        within(end, start, end),
{
}

/// A forced run happens whatever the date, the hour, the holidays and the window.
pub proof fn force_law(d: Date, h: int, holidays: Seq<Seq<char>>, start: int, end: int)
    ensures
        run_now(true, d, h, holidays, start, end),
{
}

/// Without force, the collector runs exactly on a business day inside the window.
pub proof fn unforced_law(d: Date, h: int, holidays: Seq<Seq<char>>, start: int, end: int)
    ensures
        run_now(false, d, h, holidays, start, end) <==> (business_day(d, holidays) && within(
            h,
            start,
            end,
        )),
{
}

} // verus!
