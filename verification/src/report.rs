//! The decisions and texts of the printed weather report: labels, levels,
//! advice and the small formats the report uses.
//!
//! The command-line front-end prints these pieces in its layout and colours.

use vstd::prelude::*;
use crate::format::{fixed1, push_fixed1};
use crate::text::{ascii_upper_char, ascii_white, ascii_uppercase, dec, digit_char, first_uppercase, is_ascii_char, is_whitespace,
    push_char, push_dec, push_str, string_of, to_uppercase, upper_first, white_space, all_ascii};
use crate::time::{convert_to_local, hour, hour_of, local_instant, valid_instant, valid_local,
    weekday_name, weekday_name_of, weekday_of, civil_month, civil_day};
use crate::types::{display_name, WeatherCondition, WeatherConfig, DetailLevel, WeatherDescription};
use vstd::utf8::{encode_utf8, is_char_boundary};

verus! {

/// The colours and weights of the printed report.
#[derive(Debug, Clone, Copy, PartialEq, Eq, Structural, Hash)]
pub enum Ink {
    Normal,
    Bold,
    Cyan,
    BrightCyan,
    BoldBrightCyan,
    Green,
    Yellow,
    BrightYellow,
    Red,
    BrightRed,
    Blue,
    BrightBlue,
}

/// Title case from position onward: the first character of each word is
/// uppercased, words being separated by white space or `-`.
pub open spec fn title_case_from(s: Seq<char>, capitalize: bool) -> Seq<char>
    decreases s.len(),
{
    if s.len() == 0 {
        Seq::empty()
    } else {
        let c = s[0];
        if white_space(c) || c == '-' {
            seq![c] + title_case_from(s.drop_first(), true)
        } else if capitalize {
            seq![first_uppercase(c)] + title_case_from(s.drop_first(), false)
        } else {
            seq![c] + title_case_from(s.drop_first(), false)
        }
    }
}

/// `s` in title case.
pub open spec fn title_case(s: Seq<char>) -> Seq<char> {
    title_case_from(s, true)
}

/// Title case from position onward for an ASCII string, with ASCII white
/// space and ASCII uppercasing.
pub open spec fn ascii_title_case_from(s: Seq<char>, capitalize: bool) -> Seq<char>
    decreases s.len(),
{
    if s.len() == 0 {
        Seq::empty()
    } else {
        let c = s[0];
        if ascii_white(c) || c == '-' {
            seq![c] + ascii_title_case_from(s.drop_first(), true)
        } else if capitalize {
            seq![ascii_upper_char(c)] + ascii_title_case_from(s.drop_first(), false)
        } else {
            seq![c] + ascii_title_case_from(s.drop_first(), false)
        }
    }
}

/// An ASCII string in title case.
pub open spec fn ascii_title_case(s: Seq<char>) -> Seq<char> {
    ascii_title_case_from(s, true)
}

proof fn lemma_ascii_title_case_step(s: Seq<char>, i: int, capitalize: bool)
    requires
        0 <= i < s.len(),
    ensures
        ascii_title_case_from(s.subrange(i, s.len() as int), capitalize) == ({
            let c = s[i];
            if ascii_white(c) || c == '-' {
                seq![c] + ascii_title_case_from(s.subrange(i + 1, s.len() as int), true)
            } else if capitalize {
                seq![ascii_upper_char(c)] + ascii_title_case_from(s.subrange(i + 1, s.len() as int), false)
            } else {
                seq![c] + ascii_title_case_from(s.subrange(i + 1, s.len() as int), false)
            }
        }),
{
    let t = s.subrange(i, s.len() as int);
    assert(t[0] == s[i]);
    assert(t.drop_first() =~= s.subrange(i + 1, s.len() as int));
}

proof fn lemma_title_case_step(s: Seq<char>, i: int, capitalize: bool)
    requires
        0 <= i < s.len(),
    ensures
        title_case_from(s.subrange(i, s.len() as int), capitalize) == ({
            let c = s[i];
            if white_space(c) || c == '-' {
                seq![c] + title_case_from(s.subrange(i + 1, s.len() as int), true)
            } else if capitalize {
                seq![first_uppercase(c)] + title_case_from(s.subrange(i + 1, s.len() as int), false)
            } else {
                seq![c] + title_case_from(s.subrange(i + 1, s.len() as int), false)
            }
        }),
{
    let t = s.subrange(i, s.len() as int);
    assert(t[0] == s[i]);
    assert(t.drop_first() =~= s.subrange(i + 1, s.len() as int));
}

/// Converts a string to title case.
pub fn to_title_case(s: &str) -> (r: String)
    ensures
        r@ == title_case(s@),
        all_ascii(s@) ==> r@ == ascii_title_case(s@),
{
    let n = s.unicode_len();
    let mut result = String::new();
    let mut capitalize_next = true;
    let mut i: usize = 0;
    assert(s@.subrange(0, n as int) =~= s@);
    assert(result@ + title_case_from(s@.subrange(0, n as int), true) =~= title_case(s@));
    assert(result@ + ascii_title_case_from(s@.subrange(0, n as int), true) =~= ascii_title_case(s@));
    while i < n
        invariant
            n == s@.len(),
            i <= n,
            result@ + title_case_from(s@.subrange(i as int, n as int), capitalize_next)
                == title_case(s@),
            all_ascii(s@) ==> result@ + ascii_title_case_from(s@.subrange(i as int, n as int),
                capitalize_next) == ascii_title_case(s@),
        decreases n - i,
    {
        let c = s.get_char(i);
        proof {
            lemma_title_case_step(s@, i as int, capitalize_next);
            lemma_ascii_title_case_step(s@, i as int, capitalize_next);
            if all_ascii(s@) {
                assert(is_ascii_char(s@[i as int]));
            }
        }
        if is_whitespace(c) || c == '-' {
            capitalize_next = true;
            push_char(&mut result, c);
        } else if capitalize_next {
            push_char(&mut result, upper_first(c));
            capitalize_next = false;
        } else {
            push_char(&mut result, c);
        }
        i = i + 1;
        proof {
            assert(result@ + title_case_from(s@.subrange(i as int, n as int), capitalize_next)
                =~= title_case(s@));
            if all_ascii(s@) {
                assert(result@ + ascii_title_case_from(s@.subrange(i as int, n as int), capitalize_next)
                    =~= ascii_title_case(s@));
            }
        }
    }
    proof {
        assert(s@.subrange(n as int, n as int) =~= Seq::<char>::empty());
        assert(result@ =~= result@ + title_case_from(s@.subrange(n as int, n as int), capitalize_next));
        assert(result@ =~= result@ + ascii_title_case_from(s@.subrange(n as int, n as int), capitalize_next));
    }
    result
}

/// A 12-hour clock label of an hour: "12 AM", "1 AM", …, "12 PM", "1 PM", ….
pub open spec fn hour12(h: int) -> Seq<char> {
    if h == 0 { "12 AM"@ }
    else if h < 12 { dec(h as nat) + " AM"@ }
    else if h == 12 { "12 PM"@ }
    else { dec((h - 12) as nat) + " PM"@ }
}

/// The hour of an instant in a timezone, as a 12-hour clock label.
pub fn format_hour_only(time: i64, timezone: &str) -> (r: String)
    requires
        valid_instant(time as int),
    ensures
        r@ == hour12(hour_of(local_instant(time as int, timezone@))),
{
    let local = convert_to_local(time, timezone);
    let h = hour(local);
    if h == 0 {
        string_of("12 AM")
    } else if h < 12 {
        let mut s = String::new();
        push_dec(&mut s, h as u64);
        push_str(&mut s, " AM");
        s
    } else if h == 12 {
        string_of("12 PM")
    } else {
        let mut s = String::new();
        push_dec(&mut s, (h - 12) as u64);
        push_str(&mut s, " PM");
        s
    }
}

/// The full weekday name of an instant (in UTC).
pub fn format_weekday(date: i64) -> (r: String)
    requires
        valid_local(date as int),
    ensures
        r@ == weekday_name_of(weekday_of(date as int)),
{
    string_of(weekday_name(date))
}

/// The report's wind arrow: the direction the wind blows towards, for a
/// bearing 0..=360 the wind comes from; "•" beyond 360.
pub open spec fn wind_arrow_of(d: int) -> Seq<char> {
    if (337 <= d && d <= 360) || d <= 22 { "↓"@ }
    else if d <= 67 { "↙"@ }
    else if d <= 112 { "←"@ }
    else if d <= 157 { "↖"@ }
    else if d <= 202 { "↑"@ }
    else if d <= 247 { "↗"@ }
    else if d <= 292 { "→"@ }
    else if d <= 336 { "↘"@ }
    else { "•"@ }
}

/// The report's wind arrow of a bearing.
pub fn get_wind_direction_arrow(degrees: u16) -> (r: &'static str)
    ensures
        r@ == wind_arrow_of(degrees as int),
{
    if (337 <= degrees && degrees <= 360) || degrees <= 22 { "↓" }
    else if degrees <= 67 { "↙" }
    else if degrees <= 112 { "←" }
    else if degrees <= 157 { "↖" }
    else if degrees <= 202 { "↑" }
    else if degrees <= 247 { "↗" }
    else if degrees <= 292 { "→" }
    else if degrees <= 336 { "↘" }
    else { "•" }
}

/// UV index levels.
#[derive(Debug, Clone, Copy, PartialEq, Eq, Structural, Hash)]
pub enum UvLevel {
    Low,
    Moderate,
    High,
    VeryHigh,
    Extreme,
}

/// The whole part of a value in tenths as a `u32` conversion takes it:
/// truncated toward zero, negative values giving 0.
pub open spec fn whole_u32(t: int) -> int {
    if t < 0 { 0 } else if t / 10 > u32::MAX { u32::MAX as int } else { t / 10 }
}

/// The level of a UV index given in tenths, by its whole part.
pub open spec fn uv_level_of(uv_tenths: int) -> UvLevel {
    let w = whole_u32(uv_tenths);
    if w <= 2 { UvLevel::Low }
    else if w <= 5 { UvLevel::Moderate }
    else if w <= 7 { UvLevel::High }
    else if w <= 10 { UvLevel::VeryHigh }
    else { UvLevel::Extreme }
}

/// The name of a UV level.
pub open spec fn uv_level_name(l: UvLevel) -> Seq<char> {
    match l {
        UvLevel::Low => "Low"@,
        UvLevel::Moderate => "Moderate"@,
        UvLevel::High => "High"@,
        UvLevel::VeryHigh => "Very High"@,
        UvLevel::Extreme => "Extreme"@,
    }
}

/// The colour of a UV level.
pub open spec fn uv_level_ink(l: UvLevel) -> Ink {
    match l {
        UvLevel::Low => Ink::Green,
        UvLevel::Moderate => Ink::Yellow,
        UvLevel::High => Ink::BrightYellow,
        UvLevel::VeryHigh => Ink::BrightRed,
        UvLevel::Extreme => Ink::Red,
    }
}

/// The level of a UV index given in tenths.
pub fn uv_level(uv_tenths: i64) -> (r: UvLevel)
    ensures
        r == uv_level_of(uv_tenths as int),
{
    let w: i64 = if uv_tenths < 0 { 0 } else { uv_tenths / 10 };
    if w <= 2 { UvLevel::Low }
    else if w <= 5 { UvLevel::Moderate }
    else if w <= 7 { UvLevel::High }
    else if w <= 10 { UvLevel::VeryHigh }
    else { UvLevel::Extreme }
}

/// The UV index text, "4.5 (Moderate)", and its colour.
pub fn uv_display(uv_tenths: i64) -> (r: (String, Ink))
    ensures
        r.0@ == fixed1(uv_tenths as int) + " ("@ + uv_level_name(uv_level_of(uv_tenths as int)) + ")"@,
        r.1 == uv_level_ink(uv_level_of(uv_tenths as int)),
{
    let level = uv_level(uv_tenths);
    let mut s = String::new();
    push_fixed1(&mut s, uv_tenths);
    push_str(&mut s, " (");
    let (name, ink) = match level {
        UvLevel::Low => ("Low", Ink::Green),
        UvLevel::Moderate => ("Moderate", Ink::Yellow),
        UvLevel::High => ("High", Ink::BrightYellow),
        UvLevel::VeryHigh => ("Very High", Ink::BrightRed),
        UvLevel::Extreme => ("Extreme", Ink::Red),
    };
    push_str(&mut s, name);
    push_str(&mut s, ")");
    (s, ink)
}

/// A probability in hundredths as a whole percentage saturated to `u8`
/// (what `(pop * 100.0) as u8` computes).
pub open spec fn pop_u8(h: int) -> int {
    if h < 0 { 0 } else if h > 255 { 255 } else { h }
}

/// The precipitation text of a probability in hundredths: its percentage,
/// or "0%" when there is no chance.
pub open spec fn precip_text_of(h: int) -> Seq<char> {
    if h > 0 { dec(pop_u8(h) as nat) + "%"@ } else { "0%"@ }
}

/// A probability in hundredths as a whole percentage saturated to `u8`.
pub fn pop_as_u8(h: i64) -> (r: u8)
    ensures
        r == pop_u8(h as int),
{
    if h < 0 { 0 } else if h > 255 { 255 } else { h as u8 }
}

/// The precipitation text of a probability given in hundredths.
pub fn precip_text(pop_hundredths: i64) -> (r: String)
    ensures
        r@ == precip_text_of(pop_hundredths as int),
{
    if pop_hundredths > 0 {
        let mut s = String::new();
        push_dec(&mut s, pop_as_u8(pop_hundredths) as u64);
        push_str(&mut s, "%");
        s
    } else {
        string_of("0%")
    }
}

/// The icon of a chance of precipitation in percent.
pub open spec fn rain_icon_of(pct: int) -> Seq<char> {
    if pct <= 20 { "🌂"@ }
    else if pct <= 50 { "💧"@ }
    else if pct <= 70 { "💦"@ }
    else if pct <= 90 { "🌧️"@ }
    else { "⛈️"@ }
}

/// The icon of a chance of precipitation in percent.
pub fn rain_icon(pct: u8) -> (r: &'static str)
    ensures
        r@ == rain_icon_of(pct as int),
{
    if pct <= 20 { "🌂" }
    else if pct <= 50 { "💧" }
    else if pct <= 70 { "💦" }
    else if pct <= 90 { "🌧️" }
    else { "⛈️" }
}

/// The chance-of-precipitation line of a day in the detailed report: its
/// percentage and icon, shown only when there is a chance at all.
pub fn precip_chance(pop_hundredths: i64) -> (r: Option<(u8, &'static str)>)
    ensures
        r is Some <==> pop_hundredths > 0,
        r matches Some(p) ==> p.0 == pop_u8(pop_hundredths as int) && p.1@ == rain_icon_of(p.0 as int),
{
    if pop_hundredths > 0 {
        let pct = pop_as_u8(pop_hundredths);
        Some((pct, rain_icon(pct)))
    } else {
        None
    }
}

/// The wind text of an hour: speed and arrow, or "Calm" when there is no wind.
pub open spec fn wind_info_of(speed_tenths: int, direction: int) -> Seq<char> {
    if speed_tenths > 0 { fixed1(speed_tenths) + " "@ + wind_arrow_of(direction) } else { "Calm"@ }
}

/// The wind text of an hour.
pub fn wind_info(speed_tenths: i64, direction: u16) -> (r: String)
    ensures
        r@ == wind_info_of(speed_tenths as int, direction as int),
{
    if speed_tenths > 0 {
        let mut s = String::new();
        push_fixed1(&mut s, speed_tenths);
        push_str(&mut s, " ");
        push_str(&mut s, get_wind_direction_arrow(direction));
        s
    } else {
        string_of("Calm")
    }
}

/// How warm a day's high is.
#[derive(Debug, Clone, Copy, PartialEq, Eq, Structural, Hash)]
pub enum TempIndicator {
    Hot,
    Warm,
    Mild,
    Cool,
    Cold,
}

/// The indicator of a day's high, given in tenths of a degree Celsius.
pub open spec fn temp_indicator_of(max_tenths: int) -> TempIndicator {
    if max_tenths > 280 { TempIndicator::Hot }
    else if max_tenths > 220 { TempIndicator::Warm }
    else if max_tenths > 150 { TempIndicator::Mild }
    else if max_tenths > 50 { TempIndicator::Cool }
    else { TempIndicator::Cold }
}

/// The label of a temperature indicator.
pub open spec fn temp_indicator_label(t: TempIndicator) -> Seq<char> {
    match t {
        TempIndicator::Hot => "🔥 Hot  "@,
        TempIndicator::Warm => "☀️ Warm "@,
        TempIndicator::Mild => "😎 Mild "@,
        TempIndicator::Cool => "❄️ Cool "@,
        TempIndicator::Cold => "❄️ Cold "@,
    }
}

/// The colour of a temperature indicator.
pub open spec fn temp_indicator_ink(t: TempIndicator) -> Ink {
    match t {
        TempIndicator::Hot => Ink::BrightRed,
        TempIndicator::Warm => Ink::BrightYellow,
        TempIndicator::Mild => Ink::Green,
        TempIndicator::Cool => Ink::BrightBlue,
        TempIndicator::Cold => Ink::Blue,
    }
}

/// The indicator of a day's high and its label and colour.
pub fn temp_indicator(max_tenths: i64) -> (r: (TempIndicator, &'static str, Ink))
    ensures
        r.0 == temp_indicator_of(max_tenths as int),
        r.1@ == temp_indicator_label(r.0),
        r.2 == temp_indicator_ink(r.0),
{
    if max_tenths > 280 { (TempIndicator::Hot, "🔥 Hot  ", Ink::BrightRed) }
    else if max_tenths > 220 { (TempIndicator::Warm, "☀️ Warm ", Ink::BrightYellow) }
    else if max_tenths > 150 { (TempIndicator::Mild, "😎 Mild ", Ink::Green) }
    else if max_tenths > 50 { (TempIndicator::Cool, "❄️ Cool ", Ink::BrightBlue) }
    else { (TempIndicator::Cold, "❄️ Cold ", Ink::Blue) }
}

/// The colour of the temperature range bar of a day, with thresholds in
/// tenths of the unit (freezing, cold, mild, hot).
pub open spec fn temp_bar_ink_of(min_tenths: int, max_tenths: int, is_imperial: bool) -> Ink {
    let very_cold: int = if is_imperial { 320 } else { 0 };
    let cold: int = if is_imperial { 500 } else { 100 };
    let mild: int = if is_imperial { 680 } else { 200 };
    let hot: int = if is_imperial { 860 } else { 300 };
    if max_tenths < very_cold { Ink::BrightBlue }
    else if max_tenths < cold { Ink::Blue }
    else if min_tenths > hot { Ink::Red }
    else if min_tenths > mild { Ink::Yellow }
    else if max_tenths > mild { Ink::Green }
    else { Ink::Cyan }
}

/// The bar drawn for a temperature range.
pub open spec fn temp_bar() -> Seq<char> {
    "────────────"@
}

/// The temperature range bar of a day and its colour.
pub fn get_temp_range_bar(min_tenths: i64, max_tenths: i64, is_imperial: bool) -> (r: (&'static str, Ink))
    ensures
        r.0@ == temp_bar(),
        r.1 == temp_bar_ink_of(min_tenths as int, max_tenths as int, is_imperial),
{
    let very_cold: i64 = if is_imperial { 320 } else { 0 };
    let cold: i64 = if is_imperial { 500 } else { 100 };
    let mild: i64 = if is_imperial { 680 } else { 200 };
    let hot: i64 = if is_imperial { 860 } else { 300 };
    let ink = if max_tenths < very_cold { Ink::BrightBlue }
        else if max_tenths < cold { Ink::Blue }
        else if min_tenths > hot { Ink::Red }
        else if min_tenths > mild { Ink::Yellow }
        else if max_tenths > mild { Ink::Green }
        else { Ink::Cyan };
    ("────────────", ink)
}

/// The name of a day in the report: "Today", "Tomorrow", else its weekday (UTC).
pub open spec fn report_day_name(index: int, date: int) -> Seq<char> {
    if index == 0 { "Today"@ } else if index == 1 { "Tomorrow"@ } else { weekday_name_of(weekday_of(date)) }
}

/// The name of the day at `index` whose date is `date`.
pub fn day_name(index: usize, date: i64) -> (r: String)
    requires
        valid_local(date as int),
    ensures
        r@ == report_day_name(index as int, date as int),
{
    if index == 0 {
        string_of("Today")
    } else if index == 1 {
        string_of("Tomorrow")
    } else {
        format_weekday(date)
    }
}

/// The shouted name of a day: "TODAY", "TOMORROW", else its weekday in capitals.
pub open spec fn shouted_day_name(index: int, date: int) -> Seq<char> {
    if index == 0 { "TODAY"@ }
    else if index == 1 { "TOMORROW"@ }
    else { ascii_uppercase(weekday_name_of(weekday_of(date))) }
}

/// Weekday names are ASCII.
proof fn lemma_weekday_names_ascii(d: int)
    ensures
        all_ascii(weekday_name_of(d)),
{
    reveal_strlit("Sunday");
    reveal_strlit("Monday");
    reveal_strlit("Tuesday");
    reveal_strlit("Wednesday");
    reveal_strlit("Thursday");
    reveal_strlit("Friday");
    reveal_strlit("Saturday");
}

/// The shouted name of the day at `index` whose date is `date`.
pub fn shouted_day(index: usize, date: i64) -> (r: String)
    requires
        valid_local(date as int),
    ensures
        r@ == shouted_day_name(index as int, date as int),
{
    if index == 0 {
        string_of("TODAY")
    } else if index == 1 {
        string_of("TOMORROW")
    } else {
        let name = format_weekday(date);
        proof {
            lemma_weekday_names_ascii(weekday_of(date as int));
        }
        to_uppercase(name.as_str())
    }
}

/// The label of a day in the temperature outlook: "Today", "Tomorrow", else
/// the first three letters of its weekday and its month/day (UTC).
pub open spec fn trend_label_of(index: int, date: int) -> Seq<char> {
    if index == 0 { "Today"@ }
    else if index == 1 { "Tomorrow"@ }
    else {
        weekday_name_of(weekday_of(date)).subrange(0, 3) + " "@ + dec(civil_month(date) as nat) + "/"@
            + dec(civil_day(date) as nat)
    }
}

/// The label of the day at `index` in the temperature outlook.
pub fn trend_label(index: usize, date: i64) -> (r: String)
    requires
        valid_local(date as int),
    ensures
        r@ == trend_label_of(index as int, date as int),
{
    if index == 0 {
        string_of("Today")
    } else if index == 1 {
        string_of("Tomorrow")
    } else {
        let name = weekday_name(date);
        proof {
            reveal_strlit("Sunday");
            reveal_strlit("Monday");
            reveal_strlit("Tuesday");
            reveal_strlit("Wednesday");
            reveal_strlit("Thursday");
            reveal_strlit("Friday");
            reveal_strlit("Saturday");
        }
        let mut s = String::new();
        push_str(&mut s, name.substring_char(0, 3));
        push_str(&mut s, " ");
        push_dec(&mut s, crate::time::month(date) as u64);
        push_str(&mut s, "/");
        push_dec(&mut s, crate::time::day(date) as u64);
        s
    }
}

/// The description of a forecast entry: its first provider description in
/// title case, else the name of its main condition.
pub open spec fn description_of(conditions: Seq<WeatherDescription>, main: WeatherCondition) -> Seq<char> {
    if conditions.len() > 0 { title_case(conditions[0].description@) } else { display_name(main) }
}

/// The description of a forecast entry.
pub fn describe(conditions: &Vec<WeatherDescription>, main: &WeatherCondition) -> (r: String)
    ensures
        r@ == description_of(conditions@, *main),
        conditions@.len() > 0 && all_ascii(conditions@[0].description@)
            ==> r@ == ascii_title_case(conditions@[0].description@),
{
    if conditions.len() > 0 {
        to_title_case(conditions[0].description.as_str())
    } else {
        main.to_string()
    }
}

/// How many bytes of a description the hourly table shows: at most eight.
pub open spec fn shown_bytes(description: Seq<char>) -> int {
    let n = (encode_utf8(description).len() as usize) as int;
    if n < 8 { n } else { 8 }
}

/// The title-cased description can be cut where the hourly table cuts it.
pub open spec fn cut_ok(description: Seq<char>) -> bool {
    is_char_boundary(encode_utf8(title_case(description)), shown_bytes(description))
}

/// The condition text of the hourly table: the first description in title
/// case cut to the byte length it had, capped at eight bytes; else the name
/// of the main condition.
pub fn hour_conditions(conditions: &Vec<WeatherDescription>, main: &WeatherCondition) -> (r: String)
    requires
        conditions@.len() > 0 ==> cut_ok(conditions@[0].description@),
    ensures
        conditions@.len() > 0 ==> encode_utf8(r@) == encode_utf8(title_case(conditions@[0].description@))
            .subrange(0, shown_bytes(conditions@[0].description@)),
        conditions@.len() == 0 ==> r@ == display_name(*main),
{
    if conditions.len() > 0 {
        let d = conditions[0].description.as_str();
        let title = to_title_case(d);
        let n = d.len();
        let k = if n < 8 { n } else { 8 };
        proof {
            vstd::utf8::encode_utf8_valid_utf8(title@);

        }
        let (head, _) = title.as_str().split_at(k);
        string_of(head)
    } else {
        main.to_string()
    }
}

/// The condition text of the hourly table where it can be cut, and `None`
/// where the cut of the title-cased description would fall inside a
/// character (where a direct cut panics).
pub fn checked_hour_conditions(conditions: &Vec<WeatherDescription>, main: &WeatherCondition)
    -> (r: Option<String>)
    ensures
        r is None <==> (conditions@.len() > 0 && !cut_ok(conditions@[0].description@)),
        r matches Some(t) ==> (conditions@.len() > 0 ==> encode_utf8(t@)
            == encode_utf8(title_case(conditions@[0].description@))
                .subrange(0, shown_bytes(conditions@[0].description@))),
        r matches Some(t) ==> (conditions@.len() == 0 ==> t@ == display_name(*main)),
{
    if conditions.len() > 0 {
        let d = conditions[0].description.as_str();
        let title = to_title_case(d);
        let n = d.len();
        let k = if n < 8 { n } else { 8 };
        if title.as_str().is_char_boundary(k) {
            Some(hour_conditions(conditions, main))
        } else {
            None
        }
    } else {
        Some(hour_conditions(conditions, main))
    }
}

/// Which figure a day's box in the daily report emphasises.
#[derive(Debug, Clone, Copy, PartialEq, Eq, Structural, Hash)]
pub enum Emphasis {
    /// The chance of precipitation, on wet days.
    Precipitation,
    /// The high temperature, on clear days.
    High,
    /// Nothing.
    Nothing,
}

/// The emphasis of a day's box.
pub open spec fn emphasis_of(c: WeatherCondition) -> Emphasis {
    match c {
        WeatherCondition::Rain | WeatherCondition::Drizzle | WeatherCondition::Thunderstorm => Emphasis::Precipitation,
        WeatherCondition::Clear => Emphasis::High,
        _ => Emphasis::Nothing,
    }
}

/// The emphasis of a day's box.
pub fn day_emphasis(c: &WeatherCondition) -> (r: Emphasis)
    ensures
        r == emphasis_of(*c),
{
    match c {
        WeatherCondition::Rain | WeatherCondition::Drizzle | WeatherCondition::Thunderstorm => Emphasis::Precipitation,
        WeatherCondition::Clear => Emphasis::High,
        _ => Emphasis::Nothing,
    }
}

/// The entries of the interactive menu.
pub open spec fn menu_items_of(show_charts: bool) -> Seq<Seq<char>> {
    if show_charts {
        seq!["Current Weather"@, "Hourly Forecast"@, "Daily Forecast"@, "Full Weather Report"@,
            "Interactive Charts"@, "Change Location"@, "Change Units"@, "Exit"@]
    } else {
        seq!["Current Weather"@, "Hourly Forecast"@, "Daily Forecast"@, "Full Weather Report"@,
            "Change Location"@, "Change Units"@, "Exit"@]
    }
}

/// The entries of the interactive menu; the charts entry only when charts
/// are shown.
pub fn menu_items(show_charts: bool) -> (r: Vec<&'static str>)
    ensures
        r@.map_values(|s: &'static str| s@) == menu_items_of(show_charts),
{
    let mut items: Vec<&'static str> = Vec::new();
    items.push("Current Weather");
    items.push("Hourly Forecast");
    items.push("Daily Forecast");
    items.push("Full Weather Report");
    if show_charts {
        items.push("Interactive Charts");
    }
    items.push("Change Location");
    items.push("Change Units");
    items.push("Exit");
    assert(items@.map_values(|s: &'static str| s@) =~= menu_items_of(show_charts));
    items
}

/// The command chosen in the interactive menu; leaving it chooses "exit".
pub open spec fn menu_choice_of(selection: Option<usize>, show_charts: bool) -> Seq<char> {
    match selection {
        None => "exit"@,
        Some(i) => if show_charts {
            if i == 0 { "current"@ } else if i == 1 { "hourly"@ } else if i == 2 { "daily"@ }
            else if i == 3 { "full"@ } else if i == 4 { "charts"@ } else if i == 5 { "change_location"@ }
            else if i == 6 { "change_units"@ } else { "exit"@ }
        } else {
            if i == 0 { "current"@ } else if i == 1 { "hourly"@ } else if i == 2 { "daily"@ }
            else if i == 3 { "full"@ } else if i == 4 { "change_location"@ } else if i == 5 { "change_units"@ }
            else { "exit"@ }
        },
    }
}

/// The command chosen in the interactive menu.
pub fn menu_choice(selection: Option<usize>, show_charts: bool) -> (r: String)
    ensures
        r@ == menu_choice_of(selection, show_charts),
{
    let choice = match selection {
        None => "exit",
        Some(i) => {
            if show_charts {
                if i == 0 { "current" } else if i == 1 { "hourly" } else if i == 2 { "daily" }
                else if i == 3 { "full" } else if i == 4 { "charts" } else if i == 5 { "change_location" }
                else if i == 6 { "change_units" } else { "exit" }
            } else {
                if i == 0 { "current" } else if i == 1 { "hourly" } else if i == 2 { "daily" }
                else if i == 3 { "full" } else if i == 4 { "change_location" } else if i == 5 { "change_units" }
                else { "exit" }
            }
        },
    };
    string_of(choice)
}

/// The entries of the units prompt.
pub fn unit_items() -> (r: Vec<&'static str>)
    ensures
        r@.len() == 3,
        r@[0]@ == "Metric (°C, m/s)"@,
        r@[1]@ == "Imperial (°F, mph)"@,
        r@[2]@ == "Standard (K, m/s)"@,
{
    let mut v = Vec::new();
    v.push("Metric (°C, m/s)");
    v.push("Imperial (°F, mph)");
    v.push("Standard (K, m/s)");
    v
}

/// The units chosen in the units prompt; anything else is metric.
pub open spec fn units_choice_of(selection: Option<usize>) -> Seq<char> {
    match selection {
        Some(i) => if i == 1 { "imperial"@ } else if i == 2 { "standard"@ } else { "metric"@ },
        None => "metric"@,
    }
}

/// The units chosen in the units prompt.
pub fn units_choice(selection: Option<usize>) -> (r: String)
    ensures
        r@ == units_choice_of(selection),
{
    match selection {
        Some(i) => {
            if i == 1 {
                string_of("imperial")
            } else if i == 2 {
                string_of("standard")
            } else {
                string_of("metric")
            }
        },
        None => string_of("metric"),
    }
}

/// The configuration the printed report works with: metric units, no fixed
/// location, standard detail with charts, and the given output switches.
pub fn report_config(animation_enabled: bool, json_output: bool) -> (r: WeatherConfig)
    ensures
        r.units@ == "metric"@,
        r.location is None,
        r.json_output == json_output,
        r.animation_enabled == animation_enabled,
        r.detail_level == DetailLevel::Standard,
        !r.no_charts,
{
    WeatherConfig {
        units: string_of("metric"),
        location: None,
        json_output,
        animation_enabled,
        detail_level: DetailLevel::Standard,
        no_charts: false,
    }
}

} // verus!
