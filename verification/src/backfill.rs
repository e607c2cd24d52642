//! The days for which historical data is fetched when backfilling.

use vstd::prelude::*;
use crate::time::{calendar_day, day_text, parse_day, format_day};

verus! {

/// The date format of the backfill bounds and of the requests,
/// such as `2024-05-17`.
pub open spec fn day_format() -> Seq<char> {
    "%Y-%m-%d"@
}

/// How many days the inclusive range from `start` to `end` holds.
pub open spec fn day_count(start: i32, end: i32) -> int {
    if end >= start {
        end - start + 1
    } else {
        0
    }
}

/// Whether chrono writes every day of the range.
pub open spec fn all_days_written(start: i32, end: i32) -> bool {
    forall|k: int| 0 <= k < day_count(start, end) ==> #[trigger] day_text((start + k) as i32, day_format()) is Some
}

/// The days from `start` to `end`, both included, each written as
/// `YYYY-MM-DD`; no days when `end` is before `start`. `None` when either
/// bound is not such a date (or, which chrono never does for a day between
/// two dates it parsed, a day cannot be written).
pub fn backfill_days(start: &str, end: &str) -> (res: Option<Vec<String>>)
    ensures
        match (calendar_day(start@, day_format()), calendar_day(end@, day_format())) {
            (Some(s), Some(e)) => if all_days_written(s, e) {
                res matches Some(v) && v.len() == day_count(s, e) && forall|k: int|
                    0 <= k < v.len() ==> (#[trigger] v@[k])@ == day_text((s + k) as i32, day_format())->0
            } else {
                res is None
            },
            _ => res is None,
        },
        match (calendar_day(start@, "%Y-%m-%d"@), calendar_day(end@, "%Y-%m-%d"@)) {
            (Some(s), Some(e)) => (e < s ==> (res matches Some(v) && v.len() == 0)) && ((s <= e
                && forall|k: int|
                0 <= k <= e - s ==> #[trigger] day_text((s + k) as i32, "%Y-%m-%d"@) is Some) ==> (
            res matches Some(v) && v.len() == e - s + 1 && v@[0]@ == day_text(s, "%Y-%m-%d"@)->0
                && v@[e - s]@ == day_text(e, "%Y-%m-%d"@)->0 && forall|k: int|
                0 <= k <= e - s ==> (#[trigger] v@[k])@ == day_text((s + k) as i32, "%Y-%m-%d"@)->0)),
            _ => res is None,
        },
{
    let format = "%Y-%m-%d";
    let s = match parse_day(start, format) {
        Some(d) => d,
        None => return None,
    };
    let e = match parse_day(end, format) {
        Some(d) => d,
        None => return None,
    };
    let mut days: Vec<String> = Vec::new();
    if e < s {
        return Some(days);
    }
    let mut day: i32 = s;
    loop
        invariant
            s <= day <= e,
            format@ == day_format(),
            calendar_day(start@, day_format()) == Some(s),
            calendar_day(end@, day_format()) == Some(e),
            days.len() == day - s,
            forall|k: int|
                0 <= k < days.len() ==> day_text((s + k) as i32, day_format()) == Some(
                    (#[trigger] days@[k])@,
                ),
        decreases e - day,
    {
        match format_day(day, format) {
            Some(t) => days.push(t),
            None => {
                assert(!all_days_written(s, e)) by {
                    assert(0 <= day - s < day_count(s, e));
                    assert(day_text((s + (day - s)) as i32, day_format()) is None);
                }
                return None;
            },
        }
        if day == e {
            assert forall|k: int| 0 <= k < day_count(s, e) implies #[trigger] day_text(
                (s + k) as i32,
                day_format(),
            ) is Some by {
                assert(day_text((s + k) as i32, day_format()) == Some(days@[k]@));
            }
            return Some(days);
        }
        day = day + 1;
    }
}

} // verus!
