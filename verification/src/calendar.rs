//! The calendar dates of the weekdays of a week.
use chrono::{Datelike, NaiveDate, Weekday};
use vstd::prelude::*;

verus! {

/// The calendar date on which a weekday of an ISO week falls, as the day of
/// the month and the month, each counted from 1; nothing where the calendar
/// has no such week or weekday. Weekday 0 is Monday.
pub uninterp spec fn iso_week_date(year: int, week: int, weekday: int) -> Option<(u32, u32)>;

/// `NaiveDate::from_isoywd_opt` of chrono, with the weekday made by
/// chrono's `Weekday::try_from` and the date read by `Datelike::day` and
/// `Datelike::month`.
///
/// The contract gives the result its name, [`iso_week_date`], and claims no
/// more of it. The years at the two ends of `i32` are left out, because
/// chrono computes with the year before and the year after.
#[verifier::external_body]
fn date_of_iso_week(year: i32, week: u32, weekday: u8) -> (date: Option<(u32, u32)>)
    requires
        i32::MIN < year < i32::MAX,
    ensures
        date == iso_week_date(year as int, week as int, weekday as int),
{
    let weekday = Weekday::try_from(weekday).ok()?;
    let date = NaiveDate::from_isoywd_opt(year, week, weekday)?;
    Some((date.day(), date.month()))
}

/// The date of weekday `weekday` of week `week` of `year`; nothing for a
/// year beyond those that the calendar counts.
pub open spec fn week_date_spec(year: usize, week: u8, weekday: int) -> Option<(u32, u32)> {
    if year < i32::MAX {
        iso_week_date(year as int, week as int, weekday)
    } else {
        None
    }
}

/// The dates of the seven days of week `week` of `year`, Monday first, each
/// as the day of the month and the month.
pub fn week_dates(year: usize, week: u8) -> (dates: Vec<Option<(u32, u32)>>)
    ensures
        dates@.len() == 7,
        forall|weekday: int|
            0 <= weekday < 7 ==> #[trigger] dates@[weekday] == week_date_spec(year, week, weekday),
{
    let mut dates: Vec<Option<(u32, u32)>> = Vec::new();
    let mut weekday: u8 = 0;
    while weekday < 7
        invariant
            weekday <= 7,
            dates@.len() == weekday,
            forall|done: int|
                0 <= done < weekday ==> #[trigger] dates@[done] == week_date_spec(year, week, done),
        decreases 7 - weekday,
    {
        let date = if year < i32::MAX as usize {
            date_of_iso_week(year as i32, week as u32, weekday)
        } else {
            None
        };
        dates.push(date);
        weekday += 1;
    }
    dates
}

} // verus!
