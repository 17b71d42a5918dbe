//! UI-agnostic formatting helpers: condition tones, unit labels, wind
//! direction, day labels and fixed-point number formatting.

use vstd::prelude::*;
use crate::text::{dec, digit, digit_char, push_char, push_dec, push_str, string_of, str_eq};
use crate::types::WeatherCondition;

verus! {

/// A semantic colour tone for a weather condition. Each front-end maps
/// these to its own concrete colours.
#[derive(Debug, Clone, Copy, PartialEq, Eq, Structural, Hash)]
pub enum ConditionTone {
    Sunny,
    Cloudy,
    Wet,
    Storm,
    Snow,
    Fog,
    Neutral,
}

/// The tone of a condition.
pub open spec fn tone_of(c: WeatherCondition) -> ConditionTone {
    match c {
        WeatherCondition::Clear => ConditionTone::Sunny,
        WeatherCondition::Clouds => ConditionTone::Cloudy,
        WeatherCondition::Rain | WeatherCondition::Drizzle => ConditionTone::Wet,
        WeatherCondition::Thunderstorm | WeatherCondition::Squall | WeatherCondition::Tornado => ConditionTone::Storm,
        WeatherCondition::Snow => ConditionTone::Snow,
        WeatherCondition::Fog | WeatherCondition::Mist | WeatherCondition::Haze => ConditionTone::Fog,
        _ => ConditionTone::Neutral,
    }
}

/// Maps a condition to its semantic tone.
pub fn condition_tone(condition: &WeatherCondition) -> (r: ConditionTone)
    ensures
        r == tone_of(*condition),
{
    match condition {
        WeatherCondition::Clear => ConditionTone::Sunny,
        WeatherCondition::Clouds => ConditionTone::Cloudy,
        WeatherCondition::Rain | WeatherCondition::Drizzle => ConditionTone::Wet,
        WeatherCondition::Thunderstorm | WeatherCondition::Squall | WeatherCondition::Tornado => {
            ConditionTone::Storm
        },
        WeatherCondition::Snow => ConditionTone::Snow,
        WeatherCondition::Fog | WeatherCondition::Mist | WeatherCondition::Haze => {
            ConditionTone::Fog
        },
        _ => ConditionTone::Neutral,
    }
}

/// Temperature unit label of a units name.
pub open spec fn temp_unit(units: Seq<char>) -> Seq<char> {
    if units == "imperial"@ { "°F"@ } else if units == "standard"@ { "K"@ } else { "°C"@ }
}

/// Wind-speed unit label of a units name.
pub open spec fn wind_unit(units: Seq<char>) -> Seq<char> {
    if units == "imperial"@ { "mph"@ } else { "m/s"@ }
}

/// Temperature unit label for "metric", "imperial" or "standard" (anything
/// else counts as metric).
pub fn temp_unit_label(units: &str) -> (r: &'static str)
    ensures
        r@ == temp_unit(units@),
{
    if str_eq(units, "imperial") {
        "°F"
    } else if str_eq(units, "standard") {
        "K"
    } else {
        "°C"
    }
}

/// Wind-speed unit label for the given units name.
pub fn wind_unit_label(units: &str) -> (r: &'static str)
    ensures
        r@ == wind_unit(units@),
{
    if str_eq(units, "imperial") {
        "mph"
    } else {
        "m/s"
    }
}

/// The compass sector (0 = N, 1 = NE, …, 7 = NW) of a bearing in 0..360.
pub open spec fn compass_sector(d: int) -> int {
    if d <= 22 || d >= 338 { 0 }
    else if d <= 67 { 1 }
    else if d <= 112 { 2 }
    else if d <= 157 { 3 }
    else if d <= 202 { 4 }
    else if d <= 247 { 5 }
    else if d <= 292 { 6 }
    else { 7 }
}

/// The cardinal label of a compass sector.
pub open spec fn sector_label(k: int) -> Seq<char> {
    if k == 0 { "N"@ }
    else if k == 1 { "NE"@ }
    else if k == 2 { "E"@ }
    else if k == 3 { "SE"@ }
    else if k == 4 { "S"@ }
    else if k == 5 { "SW"@ }
    else if k == 6 { "W"@ }
    else { "NW"@ }
}

/// The arrow of a compass sector, pointing the way the bearing points.
pub open spec fn sector_arrow(k: int) -> Seq<char> {
    if k == 0 { "↑"@ }
    else if k == 1 { "↗"@ }
    else if k == 2 { "→"@ }
    else if k == 3 { "↘"@ }
    else if k == 4 { "↓"@ }
    else if k == 5 { "↙"@ }
    else if k == 6 { "←"@ }
    else { "↖"@ }
}

/// The compass sector of a bearing in degrees (0..360).
fn sector(d: u16) -> (k: u8)
    requires
        d < 360,
    ensures
        k == compass_sector(d as int),
{
    if d <= 22 || d >= 338 { 0 }
    else if d <= 67 { 1 }
    else if d <= 112 { 2 }
    else if d <= 157 { 3 }
    else if d <= 202 { 4 }
    else if d <= 247 { 5 }
    else if d <= 292 { 6 }
    else { 7 }
}

/// Converts a compass bearing in degrees to a short cardinal label
/// (N, NE, …); bearings wrap around at 360.
pub fn wind_direction_label(degrees: u16) -> (r: &'static str)
    ensures
        r@ == sector_label(compass_sector(degrees as int % 360)),
{
    match sector(degrees % 360) {
        0 => "N",
        1 => "NE",
        2 => "E",
        3 => "SE",
        4 => "S",
        5 => "SW",
        6 => "W",
        _ => "NW",
    }
}

/// Converts a compass bearing in degrees to a unicode arrow; bearings wrap
/// around at 360.
pub fn wind_direction_arrow(degrees: u16) -> (r: &'static str)
    ensures
        r@ == sector_arrow(compass_sector(degrees as int % 360)),
{
    match sector(degrees % 360) {
        0 => "↑",
        1 => "↗",
        2 => "→",
        3 => "↘",
        4 => "↓",
        5 => "↙",
        6 => "←",
        _ => "↖",
    }
}

/// The label of the day at `index` of a forecast list.
pub open spec fn day_label_spec(index: int, weekday: Seq<char>) -> Seq<char> {
    if index == 0 { "Today"@ } else if index == 1 { "Tomorrow"@ } else { weekday }
}

/// Human-friendly label for a day given its index in a forecast list.
pub fn day_label(index: usize, weekday: &str) -> (r: String)
    ensures
        r@ == day_label_spec(index as int, weekday@),
{
    match index {
        0 => string_of("Today"),
        1 => string_of("Tomorrow"),
        _ => string_of(weekday),
    }
}

/// A probability of precipitation in hundredths, clamped to a percentage.
pub open spec fn pop_percent_spec(pop_hundredths: int) -> int {
    if pop_hundredths < 0 { 0 } else if pop_hundredths > 100 { 100 } else { pop_hundredths }
}

/// Converts a probability of precipitation, given in hundredths, to an
/// integer percentage clamped to 0..=100.
pub fn pop_percent(pop_hundredths: i64) -> (r: u8)
    ensures
        r == pop_percent_spec(pop_hundredths as int),
{
    if pop_hundredths < 0 {
        0
    } else if pop_hundredths > 100 {
        100
    } else {
        pop_hundredths as u8
    }
}

/// The magnitude of a signed value.
pub open spec fn magnitude(t: int) -> nat {
    if t < 0 { (-t) as nat } else { t as nat }
}

/// A sign prefix: `-` for negative values.
pub open spec fn sign_prefix(t: int) -> Seq<char> {
    if t < 0 { "-"@ } else { Seq::empty() }
}

/// A value given in tenths, printed with one decimal (`{:.1}` of `t / 10`).
pub open spec fn fixed1(t: int) -> Seq<char> {
    sign_prefix(t) + dec(magnitude(t) / 10) + seq!['.', digit_char((magnitude(t) % 10) as int)]
}

/// A magnitude given in tenths, rounded to a whole number with ties to even.
pub open spec fn round_tenths(m: nat) -> nat {
    let q = m / 10;
    let r = m % 10;
    if r > 5 || (r == 5 && q % 2 == 1) { q + 1 } else { q }
}

/// A value given in tenths, printed with no decimals (`{:.0}` of `t / 10`).
pub open spec fn fixed0(t: int) -> Seq<char> {
    sign_prefix(t) + dec(round_tenths(magnitude(t)))
}

/// The magnitude of a signed value.
fn magnitude_of(t: i64) -> (m: u64)
    ensures
        m == magnitude(t as int),
{
    if t < 0 {
        if t == i64::MIN { 9223372036854775808u64 } else { (-t) as u64 }
    } else {
        t as u64
    }
}

/// Appends a value given in tenths with one decimal.
pub fn push_fixed1(s: &mut String, t: i64)
    ensures
        final(s)@ == old(s)@ + fixed1(t as int),
{
    let m = magnitude_of(t);
    if t < 0 {
        push_str(s, "-");
    }
    push_dec(s, m / 10);
    push_char(s, '.');
    push_char(s, digit(m % 10));
    assert(s@ =~= old(s)@ + fixed1(t as int));
}

/// Appends a value given in tenths rounded to a whole number.
pub fn push_fixed0(s: &mut String, t: i64)
    ensures
        final(s)@ == old(s)@ + fixed0(t as int),
{
    let m = magnitude_of(t);
    let q = m / 10;
    let r = m % 10;
    let rounded = if r > 5 || (r == 5 && q % 2 == 1) { q + 1 } else { q };
    if t < 0 {
        push_str(s, "-");
    }
    push_dec(s, rounded);
    assert(s@ =~= old(s)@ + fixed0(t as int));
}

/// Formats a value given in tenths with one decimal.
pub fn format_fixed1(t: i64) -> (r: String)
    ensures
        r@ == fixed1(t as int),
{
    let mut s = String::new();
    push_fixed1(&mut s, t);
    assert(s@ =~= fixed1(t as int));
    s
}

/// Formats a value given in tenths with no decimals.
pub fn format_fixed0(t: i64) -> (r: String)
    ensures
        r@ == fixed0(t as int),
{
    let mut s = String::new();
    push_fixed0(&mut s, t);
    assert(s@ =~= fixed0(t as int));
    s
}

} // verus!
