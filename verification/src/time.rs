//! Calls into `chrono` and `chrono-tz` for the inverter's local clock.
//!
//! Times cross this boundary in chrono's own form: a pair of whole seconds
//! since 1970-01-01 00:00:00 counted on the naive (zone-less) calendar (for a
//! UTC time, the Unix timestamp) and the nanoseconds past that second, which
//! reach 1_000_000_000 or more only during a leap second, as chrono's
//! `timestamp` and `timestamp_subsec_nanos` give them and `from_timestamp`
//! takes them back. Time zones cross it as their IANA names.

use vstd::prelude::*;
use chrono::TimeZone;
use std::fmt::Write;

verus! {

/// What `chrono::NaiveDateTime::parse_from_str(text, format)` yields, as
/// seconds and nanoseconds on the naive calendar, or `None` where chrono
/// refuses the text.
pub uninterp spec fn naive_datetime(text: Seq<char>, format: Seq<char>) -> Option<(i64, u32)>;

/// The UTC time, as seconds and nanoseconds, of the local wall-clock time
/// `local` in the zone that `chrono-tz` knows by the name `zone`; `None` where
/// the name is not in its database or the local time is skipped or repeated
/// by a clock change.
pub uninterp spec fn zone_local_to_utc(zone: Seq<char>, local: (i64, u32)) -> Option<(i64, u32)>;

/// Calls `chrono::NaiveDateTime::parse_from_str`. The contract only names
/// the result: chrono's strftime parser is not restated here.
#[verifier::external_body]
pub(crate) fn parse_naive_time(text: &str, format: &str) -> (res: Option<(i64, u32)>)
    ensures
        res == naive_datetime(text@, format@),
{
    match chrono::NaiveDateTime::parse_from_str(text, format) {
        Ok(t) => Some((t.and_utc().timestamp(), t.and_utc().timestamp_subsec_nanos())),
        Err(_) => None,
    }
}

/// Looks `zone` up with `<chrono_tz::Tz as FromStr>::from_str` and converts
/// the local time with `TimeZone::from_local_datetime`, keeping only an
/// unambiguous answer (`LocalResult::single`). The contract only names the
/// result: the zone database is not restated here.
#[verifier::external_body]
pub(crate) fn local_to_utc(zone: &str, local: (i64, u32)) -> (res: Option<(i64, u32)>)
    ensures
        res == zone_local_to_utc(zone@, local),
{
    let tz: chrono_tz::Tz = match zone.parse() {
        Ok(tz) => tz,
        Err(_) => return None,
    };
    let wall = match chrono::DateTime::from_timestamp(local.0, local.1) {
        Some(t) => t.naive_utc(),
        None => return None,
    };
    match tz.from_local_datetime(&wall).single() {
        Some(t) => Some((t.timestamp(), t.timestamp_subsec_nanos())),
        None => None,
    }
}

/// What `chrono::NaiveDate::parse_from_str(text, format)` yields, as the
/// day number that `Datelike::num_days_from_ce` gives (1 for 0001-01-01).
pub uninterp spec fn calendar_day(text: Seq<char>, format: Seq<char>) -> Option<i32>;

/// The text that chrono writes for the day numbered `day` under `format`,
/// or `None` where chrono has no such day or cannot write the format.
pub uninterp spec fn day_text(day: i32, format: Seq<char>) -> Option<Seq<char>>;

/// Calls `chrono::NaiveDate::parse_from_str` and numbers the day with
/// `Datelike::num_days_from_ce`. The contract only names the result.
#[verifier::external_body]
pub(crate) fn parse_day(text: &str, format: &str) -> (res: Option<i32>)
    ensures
        res == calendar_day(text@, format@),
{
    match chrono::NaiveDate::parse_from_str(text, format) {
        Ok(d) => Some(chrono::Datelike::num_days_from_ce(&d)),
        Err(_) => None,
    }
}

/// Calls `chrono::NaiveDate::from_num_days_from_ce_opt` and writes the day
/// with `NaiveDate::format`. The contract only names the result.
#[verifier::external_body]
pub(crate) fn format_day(day: i32, format: &str) -> (res: Option<String>)
    ensures
        match day_text(day, format@) {
            Some(t) => res matches Some(s) && s@ == t,
            None => res is None,
        },
{
    let date = match chrono::NaiveDate::from_num_days_from_ce_opt(day) {
        Some(d) => d,
        None => return None,
    };
    let mut out = String::new();
    match write!(out, "{}", date.format(format)) {
        Ok(()) => Some(out),
        Err(_) => None,
    }
}

} // verus!
