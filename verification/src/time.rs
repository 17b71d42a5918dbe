//! Instants and local time.
//!
//! An instant is a Unix timestamp in seconds (UTC). Local time is obtained
//! by a fixed hour offset from a small built-in timezone table; the calendar
//! fields of an instant come from `chrono`.

use vstd::prelude::*;
use chrono::{Datelike, Timelike};
use crate::text::{dec, dec2, push_char, push_dec, push_dec2, str_eq};

verus! {

/// Largest magnitude of an instant the library accepts (about 253,000
/// years around 1970), well inside what `chrono` represents.
pub const INSTANT_LIMIT: i64 = 8_000_000_000_000;

/// Largest magnitude of a local instant handed to `chrono`: an accepted
/// instant shifted by at most a day.
pub const LOCAL_LIMIT: i64 = 8_000_000_100_000;

/// Whether an instant is within the accepted range.
pub open spec fn valid_instant(t: int) -> bool {
    -INSTANT_LIMIT <= t <= INSTANT_LIMIT
}

/// Whether a (possibly shifted) instant can be handed to `chrono`.
pub open spec fn valid_local(t: int) -> bool {
    -LOCAL_LIMIT <= t <= LOCAL_LIMIT
}

/// Hour of the day (0–23) of an instant.
pub open spec fn hour_of(t: int) -> int {
    (t % 86400) / 3600
}

/// Minute of the hour (0–59) of an instant.
pub open spec fn minute_of(t: int) -> int {
    (t % 3600) / 60
}

/// Day of the week of an instant, counted from Sunday (0) to Saturday (6);
/// 1970-01-01 was a Thursday.
pub open spec fn weekday_of(t: int) -> int {
    (t / 86400 + 4) % 7
}

/// The calendar month (1–12) of an instant in the proleptic Gregorian
/// calendar, as `chrono` computes it.
pub uninterp spec fn civil_month(t: int) -> int;

/// The day of the month (1–31) of an instant in the proleptic Gregorian
/// calendar, as `chrono` computes it.
pub uninterp spec fn civil_day(t: int) -> int;

/// Hour of the day of a UTC instant (`chrono` `DateTime<Utc>::hour`).
#[verifier::external_body]
fn chrono_hour(t: i64) -> (r: u32)
    requires
        valid_local(t as int),
    ensures
        r == hour_of(t as int),
{
    chrono::DateTime::from_timestamp(t, 0).unwrap().hour()
}

/// Minute of the hour of a UTC instant (`chrono` `DateTime<Utc>::minute`).
#[verifier::external_body]
fn chrono_minute(t: i64) -> (r: u32)
    requires
        valid_local(t as int),
    ensures
        r == minute_of(t as int),
{
    chrono::DateTime::from_timestamp(t, 0).unwrap().minute()
}

/// Day of the week of a UTC instant, from Sunday (0)
/// (`chrono` `Weekday::num_days_from_sunday`).
#[verifier::external_body]
fn chrono_weekday(t: i64) -> (r: u32)
    requires
        valid_local(t as int),
    ensures
        r == weekday_of(t as int),
{
    chrono::DateTime::from_timestamp(t, 0).unwrap().weekday().num_days_from_sunday()
}

/// Calendar month of a UTC instant (`chrono` `DateTime<Utc>::month`).
#[verifier::external_body]
fn chrono_month(t: i64) -> (r: u32)
    requires
        valid_local(t as int),
    ensures
        r == civil_month(t as int),
        1 <= r <= 12,
{
    chrono::DateTime::from_timestamp(t, 0).unwrap().month()
}

/// Day of the month of a UTC instant (`chrono` `DateTime<Utc>::day`).
#[verifier::external_body]
fn chrono_day(t: i64) -> (r: u32)
    requires
        valid_local(t as int),
    ensures
        r == civil_day(t as int),
        1 <= r <= 31,
{
    chrono::DateTime::from_timestamp(t, 0).unwrap().day()
}

/// Hour offset from UTC of a timezone name in the built-in table; unknown
/// names are treated as UTC.
pub open spec fn tz_offset_hours(tz: Seq<char>) -> int {
    if tz == "America/New_York"@ || tz == "EST"@ || tz == "EDT"@ { -5 }
    else if tz == "America/Chicago"@ || tz == "CST"@ || tz == "CDT"@ { -6 }
    else if tz == "America/Denver"@ || tz == "MST"@ || tz == "MDT"@ { -7 }
    else if tz == "America/Los_Angeles"@ || tz == "PST"@ || tz == "PDT"@ { -8 }
    else if tz == "America/Anchorage"@ || tz == "AKST"@ || tz == "AKDT"@ { -9 }
    else if tz == "Pacific/Honolulu"@ || tz == "HST"@ { -10 }
    else if tz == "Europe/London"@ || tz == "GMT"@ || tz == "BST"@ { 0 }
    else if tz == "Europe/Paris"@ || tz == "Europe/Berlin"@ || tz == "Europe/Rome"@
        || tz == "CET"@ || tz == "CEST"@ { 1 }
    else if tz == "Europe/Athens"@ || tz == "Europe/Istanbul"@ || tz == "EET"@
        || tz == "EEST"@ { 2 }
    else if tz == "Asia/Dubai"@ { 4 }
    else if tz == "Asia/Kolkata"@ || tz == "IST"@ { 5 }
    else if tz == "Asia/Shanghai"@ || tz == "Asia/Singapore"@ { 8 }
    else if tz == "Asia/Tokyo"@ || tz == "JST"@ { 9 }
    else if tz == "Australia/Sydney"@ || tz == "AEST"@ || tz == "AEDT"@ { 10 }
    else { 0 }
}

/// The local instant of `t` in timezone `tz`.
pub open spec fn local_instant(t: int, tz: Seq<char>) -> int {
    t + 3600 * tz_offset_hours(tz)
}

/// `HH:MM` of an instant.
pub open spec fn hh_mm(t: int) -> Seq<char> {
    dec2(hour_of(t) as nat) + seq![':'] + dec2(minute_of(t) as nat)
}

/// `M/D` of an instant, without padding.
pub open spec fn month_day(t: int) -> Seq<char> {
    dec(civil_month(t) as nat) + seq!['/'] + dec(civil_day(t) as nat)
}

/// `MM/DD` of an instant, zero-padded.
pub open spec fn month_day_padded(t: int) -> Seq<char> {
    dec2(civil_month(t) as nat) + seq!['/'] + dec2(civil_day(t) as nat)
}

/// Full English name of a day of the week counted from Sunday.
pub open spec fn weekday_name_of(d: int) -> Seq<char> {
    if d == 0 { "Sunday"@ }
    else if d == 1 { "Monday"@ }
    else if d == 2 { "Tuesday"@ }
    else if d == 3 { "Wednesday"@ }
    else if d == 4 { "Thursday"@ }
    else if d == 5 { "Friday"@ }
    else { "Saturday"@ }
}

/// Hour offset from UTC of a timezone name in the built-in table.
pub fn timezone_offset_hours(timezone: &str) -> (h: i64)
    ensures
        h == tz_offset_hours(timezone@),
        -10 <= h <= 10,
{
    let tz = timezone;
    if str_eq(tz, "America/New_York") || str_eq(tz, "EST") || str_eq(tz, "EDT") { -5 }
    else if str_eq(tz, "America/Chicago") || str_eq(tz, "CST") || str_eq(tz, "CDT") { -6 }
    else if str_eq(tz, "America/Denver") || str_eq(tz, "MST") || str_eq(tz, "MDT") { -7 }
    else if str_eq(tz, "America/Los_Angeles") || str_eq(tz, "PST") || str_eq(tz, "PDT") { -8 }
    else if str_eq(tz, "America/Anchorage") || str_eq(tz, "AKST") || str_eq(tz, "AKDT") { -9 }
    else if str_eq(tz, "Pacific/Honolulu") || str_eq(tz, "HST") { -10 }
    else if str_eq(tz, "Europe/London") || str_eq(tz, "GMT") || str_eq(tz, "BST") { 0 }
    else if str_eq(tz, "Europe/Paris") || str_eq(tz, "Europe/Berlin") || str_eq(tz, "Europe/Rome")
        || str_eq(tz, "CET") || str_eq(tz, "CEST") { 1 }
    else if str_eq(tz, "Europe/Athens") || str_eq(tz, "Europe/Istanbul") || str_eq(tz, "EET")
        || str_eq(tz, "EEST") { 2 }
    else if str_eq(tz, "Asia/Dubai") { 4 }
    else if str_eq(tz, "Asia/Kolkata") || str_eq(tz, "IST") { 5 }
    else if str_eq(tz, "Asia/Shanghai") || str_eq(tz, "Asia/Singapore") { 8 }
    else if str_eq(tz, "Asia/Tokyo") || str_eq(tz, "JST") { 9 }
    else if str_eq(tz, "Australia/Sydney") || str_eq(tz, "AEST") || str_eq(tz, "AEDT") { 10 }
    else { 0 }
}

/// Converts a UTC instant to the local instant of `timezone`.
pub fn convert_to_local(time: i64, timezone: &str) -> (r: i64)
    requires
        valid_instant(time as int),
    ensures
        r == local_instant(time as int, timezone@),
        valid_local(r as int),
{
    time + 3600 * timezone_offset_hours(timezone)
}

/// Hour of the day of a local instant.
pub fn hour(t: i64) -> (r: u32)
    requires
        valid_local(t as int),
    ensures
        r == hour_of(t as int),
        r < 24,
{
    chrono_hour(t)
}

/// Minute of the hour of a local instant.
pub fn minute(t: i64) -> (r: u32)
    requires
        valid_local(t as int),
    ensures
        r == minute_of(t as int),
        r < 60,
{
    chrono_minute(t)
}

/// Calendar month of a local instant.
pub fn month(t: i64) -> (r: u32)
    requires
        valid_local(t as int),
    ensures
        r == civil_month(t as int),
        1 <= r <= 12,
{
    chrono_month(t)
}

/// Day of the month of a local instant.
pub fn day(t: i64) -> (r: u32)
    requires
        valid_local(t as int),
    ensures
        r == civil_day(t as int),
        1 <= r <= 31,
{
    chrono_day(t)
}

/// Appends `HH:MM` of a local instant.
pub fn push_hh_mm(s: &mut String, t: i64)
    requires
        valid_local(t as int),
    ensures
        final(s)@ == old(s)@ + hh_mm(t as int),
{
    let h = hour(t);
    let m = minute(t);
    push_dec2(s, h as u64);
    push_char(s, ':');
    push_dec2(s, m as u64);
    assert(s@ =~= old(s)@ + hh_mm(t as int));
}

/// Appends `MM/DD` of a local instant.
pub fn push_month_day_padded(s: &mut String, t: i64)
    requires
        valid_local(t as int),
    ensures
        final(s)@ == old(s)@ + month_day_padded(t as int),
{
    let m = chrono_month(t);
    let d = chrono_day(t);
    push_dec2(s, m as u64);
    push_char(s, '/');
    push_dec2(s, d as u64);
    assert(s@ =~= old(s)@ + month_day_padded(t as int));
}

/// Formats an instant as `HH:MM` in the given timezone.
pub fn format_local_time(time: i64, timezone: &str) -> (r: String)
    requires
        valid_instant(time as int),
    ensures
        r@ == hh_mm(local_instant(time as int, timezone@)),
{
    let local = convert_to_local(time, timezone);
    let mut s = String::new();
    push_hh_mm(&mut s, local);
    assert(s@ =~= hh_mm(local as int));
    s
}

/// Formats a date as `M/D` in the given timezone.
pub fn format_date_short(date: i64, timezone: &str) -> (r: String)
    requires
        valid_instant(date as int),
    ensures
        r@ == month_day(local_instant(date as int, timezone@)),
{
    let local = convert_to_local(date, timezone);
    let m = chrono_month(local);
    let d = chrono_day(local);
    let mut s = String::new();
    push_dec(&mut s, m as u64);
    push_char(&mut s, '/');
    push_dec(&mut s, d as u64);
    assert(s@ =~= month_day(local as int));
    s
}

/// Day of the week of an instant, counted from Sunday.
pub fn weekday_number(date: i64) -> (r: u32)
    requires
        valid_local(date as int),
    ensures
        r == weekday_of(date as int),
        r < 7,
{
    chrono_weekday(date)
}

/// Full weekday name of an instant.
pub fn weekday_name(date: i64) -> (r: &'static str)
    requires
        valid_local(date as int),
    ensures
        r@ == weekday_name_of(weekday_of(date as int)),
{
    match weekday_number(date) {
        0 => "Sunday",
        1 => "Monday",
        2 => "Tuesday",
        3 => "Wednesday",
        4 => "Thursday",
        5 => "Friday",
        _ => "Saturday",
    }
}

/// Whether an hour value falls within daytime (06:00–17:59).
pub fn is_daytime(hour: u32) -> (r: bool)
    ensures
        r == (6 <= hour && hour < 18),
{
    6 <= hour && hour < 18
}

} // verus!
