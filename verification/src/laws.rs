//! Properties that relate several operations of the library.

use vstd::prelude::*;
use crate::advice::{outlook_of, DayOutlook};
use crate::format::{compass_sector, pop_percent_spec, sector_arrow, sector_label, temp_unit, tone_of,
    wind_unit, ConditionTone};
use crate::location::{ip_location_of, IpFields};
use crate::presentation::{current_view_of, day_row_of, hour_row_of, CurrentView, DayRow, HourRow, Observation};
use crate::gui::{query_of, toggled_units};
use crate::persistence::{adds_location, names_after_add, names_after_remove, has_location,
    lemma_trim_is_trimmed, is_trimmed};
use crate::tabs::{next_tab, prev_tab, tab_step, TabKey, TabStep, TuiTab};
use crate::text::{all_ascii, ascii_lower_char, ascii_lowercase, is_ascii_char, dec, dec2, digit_char, eq_ignore_ascii_case_spec, trim_spec, trim_start_spec,
    trim_end_spec, white_space};
use crate::time::{hh_mm, hour_of, local_instant, minute_of, month_day_padded, tz_offset_hours,
    weekday_name_of, weekday_of};
use crate::tui::{page_step, PageKey, PageStep};
use crate::types::{DailyForecast, HourlyForecast, Location, condition_from_key, condition_key, detail_level_name, DetailLevel, WeatherCondition};

verus! {

/// Every condition is parsed back from its lowercase key.
pub proof fn law_condition_key_roundtrip(c: WeatherCondition)
    ensures
        condition_from_key(condition_key(c)) == c,
{
    // The keys differ in length or in one of their first two letters.
    reveal_strlit("clear");
    reveal_strlit("clouds");
    reveal_strlit("rain");
    reveal_strlit("drizzle");
    reveal_strlit("thunderstorm");
    reveal_strlit("snow");
    reveal_strlit("mist");
    reveal_strlit("fog");
    reveal_strlit("smoke");
    reveal_strlit("haze");
    reveal_strlit("dust");
    reveal_strlit("sand");
    reveal_strlit("ash");
    reveal_strlit("squall");
    reveal_strlit("tornado");
    reveal_strlit("unknown");
    assert("clear"@.len() == 5 && "clear"@[0] == 'c' && "clear"@[1] == 'l');
    assert("clouds"@.len() == 6 && "clouds"@[0] == 'c' && "clouds"@[1] == 'l');
    assert("rain"@.len() == 4 && "rain"@[0] == 'r' && "rain"@[1] == 'a');
    assert("drizzle"@.len() == 7 && "drizzle"@[0] == 'd' && "drizzle"@[1] == 'r');
    assert("thunderstorm"@.len() == 12 && "thunderstorm"@[0] == 't' && "thunderstorm"@[1] == 'h');
    assert("snow"@.len() == 4 && "snow"@[0] == 's' && "snow"@[1] == 'n');
    assert("mist"@.len() == 4 && "mist"@[0] == 'm' && "mist"@[1] == 'i');
    assert("fog"@.len() == 3 && "fog"@[0] == 'f' && "fog"@[1] == 'o');
    assert("smoke"@.len() == 5 && "smoke"@[0] == 's' && "smoke"@[1] == 'm');
    assert("haze"@.len() == 4 && "haze"@[0] == 'h' && "haze"@[1] == 'a');
    assert("dust"@.len() == 4 && "dust"@[0] == 'd' && "dust"@[1] == 'u');
    assert("sand"@.len() == 4 && "sand"@[0] == 's' && "sand"@[1] == 'a');
    assert("ash"@.len() == 3 && "ash"@[0] == 'a' && "ash"@[1] == 's');
    assert("squall"@.len() == 6 && "squall"@[0] == 's' && "squall"@[1] == 'q');
    assert("tornado"@.len() == 7 && "tornado"@[0] == 't' && "tornado"@[1] == 'o');
    assert("unknown"@.len() == 7 && "unknown"@[0] == 'u' && "unknown"@[1] == 'n');
}

/// Parsing a condition ignores ASCII case: an ASCII name is lowered to an
/// ASCII name that lowering leaves unchanged, so (with the contract of
/// `WeatherCondition::from_str`) an ASCII name parses as its lowercased
/// form does.
pub proof fn law_condition_parse_ignores_ascii_case(s: Seq<char>)
    requires
        all_ascii(s),
    ensures
        all_ascii(ascii_lowercase(s)),
        ascii_lowercase(ascii_lowercase(s)) == ascii_lowercase(s),
        condition_from_key(ascii_lowercase(ascii_lowercase(s))) == condition_from_key(ascii_lowercase(s)),
{
    let l = ascii_lowercase(s);
    assert forall|i: int| 0 <= i < l.len() implies is_ascii_char(#[trigger] l[i])
        && ascii_lower_char(l[i]) == l[i] by {
        let c = s[i];
        assert(is_ascii_char(c));
        if 'A' <= c && c <= 'Z' {
            assert(l[i] == ((c as u32) + 32) as char);
            assert((((c as u32) + 32) as char) as u32 == (c as u32) + 32);
        }
    }
    assert(ascii_lowercase(l) =~= l);
}

/// The built-in timezone table: every listed name has its zone's offset
/// from UTC in hours, so that all names of one zone agree (Paris, Berlin,
/// Rome, CET and CEST are all UTC+1), and an unlisted name is UTC.
#[verifier::rlimit(50)]
pub proof fn law_timezone_table()
    ensures
        tz_offset_hours("America/New_York"@) == -5,
        tz_offset_hours("EST"@) == -5,
        tz_offset_hours("EDT"@) == -5,
        tz_offset_hours("America/Chicago"@) == -6,
        tz_offset_hours("CST"@) == -6,
        tz_offset_hours("CDT"@) == -6,
        tz_offset_hours("America/Denver"@) == -7,
        tz_offset_hours("MST"@) == -7,
        tz_offset_hours("MDT"@) == -7,
        tz_offset_hours("America/Los_Angeles"@) == -8,
        tz_offset_hours("PST"@) == -8,
        tz_offset_hours("PDT"@) == -8,
        tz_offset_hours("America/Anchorage"@) == -9,
        tz_offset_hours("AKST"@) == -9,
        tz_offset_hours("AKDT"@) == -9,
        tz_offset_hours("Pacific/Honolulu"@) == -10,
        tz_offset_hours("HST"@) == -10,
        tz_offset_hours("Europe/London"@) == 0,
        tz_offset_hours("GMT"@) == 0,
        tz_offset_hours("BST"@) == 0,
        tz_offset_hours("Europe/Paris"@) == 1,
        tz_offset_hours("Europe/Berlin"@) == 1,
        tz_offset_hours("Europe/Rome"@) == 1,
        tz_offset_hours("CET"@) == 1,
        tz_offset_hours("CEST"@) == 1,
        tz_offset_hours("Europe/Athens"@) == 2,
        tz_offset_hours("Europe/Istanbul"@) == 2,
        tz_offset_hours("EET"@) == 2,
        tz_offset_hours("EEST"@) == 2,
        tz_offset_hours("Asia/Dubai"@) == 4,
        tz_offset_hours("Asia/Kolkata"@) == 5,
        tz_offset_hours("IST"@) == 5,
        tz_offset_hours("Asia/Shanghai"@) == 8,
        tz_offset_hours("Asia/Singapore"@) == 8,
        tz_offset_hours("Asia/Tokyo"@) == 9,
        tz_offset_hours("JST"@) == 9,
        tz_offset_hours("Australia/Sydney"@) == 10,
        tz_offset_hours("AEST"@) == 10,
        tz_offset_hours("AEDT"@) == 10,
        tz_offset_hours("Mars/Olympus"@) == 0,
        tz_offset_hours("utc"@) == 0,
{
    // The names differ in length or in one of a few positions.
    reveal_strlit("America/New_York");
    reveal_strlit("EST");
    reveal_strlit("EDT");
    reveal_strlit("America/Chicago");
    reveal_strlit("CST");
    reveal_strlit("CDT");
    reveal_strlit("America/Denver");
    reveal_strlit("MST");
    reveal_strlit("MDT");
    reveal_strlit("America/Los_Angeles");
    reveal_strlit("PST");
    reveal_strlit("PDT");
    reveal_strlit("America/Anchorage");
    reveal_strlit("AKST");
    reveal_strlit("AKDT");
    reveal_strlit("Pacific/Honolulu");
    reveal_strlit("HST");
    reveal_strlit("Europe/London");
    reveal_strlit("GMT");
    reveal_strlit("BST");
    reveal_strlit("Europe/Paris");
    reveal_strlit("Europe/Berlin");
    reveal_strlit("Europe/Rome");
    reveal_strlit("CET");
    reveal_strlit("CEST");
    reveal_strlit("Europe/Athens");
    reveal_strlit("Europe/Istanbul");
    reveal_strlit("EET");
    reveal_strlit("EEST");
    reveal_strlit("Asia/Dubai");
    reveal_strlit("Asia/Kolkata");
    reveal_strlit("IST");
    reveal_strlit("Asia/Shanghai");
    reveal_strlit("Asia/Singapore");
    reveal_strlit("Asia/Tokyo");
    reveal_strlit("JST");
    reveal_strlit("Australia/Sydney");
    reveal_strlit("AEST");
    reveal_strlit("AEDT");
    reveal_strlit("Mars/Olympus");
    reveal_strlit("utc");
    assert("America/New_York"@.len() == 16 && "America/New_York"@[0] == 'A' && "America/New_York"@[1] == 'm' && "America/New_York"@[2] == 'e' && "America/New_York"@[5] == 'c' && "America/New_York"@[7] == '/');
    assert("EST"@.len() == 3 && "EST"@[0] == 'E' && "EST"@[1] == 'S' && "EST"@[2] == 'T');
    assert("EDT"@.len() == 3 && "EDT"@[0] == 'E' && "EDT"@[1] == 'D' && "EDT"@[2] == 'T');
    assert("America/Chicago"@.len() == 15 && "America/Chicago"@[0] == 'A' && "America/Chicago"@[1] == 'm' && "America/Chicago"@[2] == 'e' && "America/Chicago"@[5] == 'c' && "America/Chicago"@[7] == '/');
    assert("CST"@.len() == 3 && "CST"@[0] == 'C' && "CST"@[1] == 'S' && "CST"@[2] == 'T');
    assert("CDT"@.len() == 3 && "CDT"@[0] == 'C' && "CDT"@[1] == 'D' && "CDT"@[2] == 'T');
    assert("America/Denver"@.len() == 14 && "America/Denver"@[0] == 'A' && "America/Denver"@[1] == 'm' && "America/Denver"@[2] == 'e' && "America/Denver"@[5] == 'c' && "America/Denver"@[7] == '/');
    assert("MST"@.len() == 3 && "MST"@[0] == 'M' && "MST"@[1] == 'S' && "MST"@[2] == 'T');
    assert("MDT"@.len() == 3 && "MDT"@[0] == 'M' && "MDT"@[1] == 'D' && "MDT"@[2] == 'T');
    assert("America/Los_Angeles"@.len() == 19 && "America/Los_Angeles"@[0] == 'A' && "America/Los_Angeles"@[1] == 'm' && "America/Los_Angeles"@[2] == 'e' && "America/Los_Angeles"@[5] == 'c' && "America/Los_Angeles"@[7] == '/');
    assert("PST"@.len() == 3 && "PST"@[0] == 'P' && "PST"@[1] == 'S' && "PST"@[2] == 'T');
    assert("PDT"@.len() == 3 && "PDT"@[0] == 'P' && "PDT"@[1] == 'D' && "PDT"@[2] == 'T');
    assert("America/Anchorage"@.len() == 17 && "America/Anchorage"@[0] == 'A' && "America/Anchorage"@[1] == 'm' && "America/Anchorage"@[2] == 'e' && "America/Anchorage"@[5] == 'c' && "America/Anchorage"@[7] == '/');
    assert("AKST"@.len() == 4 && "AKST"@[0] == 'A' && "AKST"@[1] == 'K' && "AKST"@[2] == 'S');
    assert("AKDT"@.len() == 4 && "AKDT"@[0] == 'A' && "AKDT"@[1] == 'K' && "AKDT"@[2] == 'D');
    assert("Pacific/Honolulu"@.len() == 16 && "Pacific/Honolulu"@[0] == 'P' && "Pacific/Honolulu"@[1] == 'a' && "Pacific/Honolulu"@[2] == 'c' && "Pacific/Honolulu"@[5] == 'i' && "Pacific/Honolulu"@[7] == '/');
    assert("HST"@.len() == 3 && "HST"@[0] == 'H' && "HST"@[1] == 'S' && "HST"@[2] == 'T');
    assert("Europe/London"@.len() == 13 && "Europe/London"@[0] == 'E' && "Europe/London"@[1] == 'u' && "Europe/London"@[2] == 'r' && "Europe/London"@[5] == 'e' && "Europe/London"@[7] == 'L');
    assert("GMT"@.len() == 3 && "GMT"@[0] == 'G' && "GMT"@[1] == 'M' && "GMT"@[2] == 'T');
    assert("BST"@.len() == 3 && "BST"@[0] == 'B' && "BST"@[1] == 'S' && "BST"@[2] == 'T');
    assert("Europe/Paris"@.len() == 12 && "Europe/Paris"@[0] == 'E' && "Europe/Paris"@[1] == 'u' && "Europe/Paris"@[2] == 'r' && "Europe/Paris"@[5] == 'e' && "Europe/Paris"@[7] == 'P');
    assert("Europe/Berlin"@.len() == 13 && "Europe/Berlin"@[0] == 'E' && "Europe/Berlin"@[1] == 'u' && "Europe/Berlin"@[2] == 'r' && "Europe/Berlin"@[5] == 'e' && "Europe/Berlin"@[7] == 'B');
    assert("Europe/Rome"@.len() == 11 && "Europe/Rome"@[0] == 'E' && "Europe/Rome"@[1] == 'u' && "Europe/Rome"@[2] == 'r' && "Europe/Rome"@[5] == 'e' && "Europe/Rome"@[7] == 'R');
    assert("CET"@.len() == 3 && "CET"@[0] == 'C' && "CET"@[1] == 'E' && "CET"@[2] == 'T');
    assert("CEST"@.len() == 4 && "CEST"@[0] == 'C' && "CEST"@[1] == 'E' && "CEST"@[2] == 'S');
    assert("Europe/Athens"@.len() == 13 && "Europe/Athens"@[0] == 'E' && "Europe/Athens"@[1] == 'u' && "Europe/Athens"@[2] == 'r' && "Europe/Athens"@[5] == 'e' && "Europe/Athens"@[7] == 'A');
    assert("Europe/Istanbul"@.len() == 15 && "Europe/Istanbul"@[0] == 'E' && "Europe/Istanbul"@[1] == 'u' && "Europe/Istanbul"@[2] == 'r' && "Europe/Istanbul"@[5] == 'e' && "Europe/Istanbul"@[7] == 'I');
    assert("EET"@.len() == 3 && "EET"@[0] == 'E' && "EET"@[1] == 'E' && "EET"@[2] == 'T');
    assert("EEST"@.len() == 4 && "EEST"@[0] == 'E' && "EEST"@[1] == 'E' && "EEST"@[2] == 'S');
    assert("Asia/Dubai"@.len() == 10 && "Asia/Dubai"@[0] == 'A' && "Asia/Dubai"@[1] == 's' && "Asia/Dubai"@[2] == 'i' && "Asia/Dubai"@[5] == 'D' && "Asia/Dubai"@[7] == 'b');
    assert("Asia/Kolkata"@.len() == 12 && "Asia/Kolkata"@[0] == 'A' && "Asia/Kolkata"@[1] == 's' && "Asia/Kolkata"@[2] == 'i' && "Asia/Kolkata"@[5] == 'K' && "Asia/Kolkata"@[7] == 'l');
    assert("IST"@.len() == 3 && "IST"@[0] == 'I' && "IST"@[1] == 'S' && "IST"@[2] == 'T');
    assert("Asia/Shanghai"@.len() == 13 && "Asia/Shanghai"@[0] == 'A' && "Asia/Shanghai"@[1] == 's' && "Asia/Shanghai"@[2] == 'i' && "Asia/Shanghai"@[5] == 'S' && "Asia/Shanghai"@[7] == 'a');
    assert("Asia/Singapore"@.len() == 14 && "Asia/Singapore"@[0] == 'A' && "Asia/Singapore"@[1] == 's' && "Asia/Singapore"@[2] == 'i' && "Asia/Singapore"@[5] == 'S' && "Asia/Singapore"@[7] == 'n');
    assert("Asia/Tokyo"@.len() == 10 && "Asia/Tokyo"@[0] == 'A' && "Asia/Tokyo"@[1] == 's' && "Asia/Tokyo"@[2] == 'i' && "Asia/Tokyo"@[5] == 'T' && "Asia/Tokyo"@[7] == 'k');
    assert("JST"@.len() == 3 && "JST"@[0] == 'J' && "JST"@[1] == 'S' && "JST"@[2] == 'T');
    assert("Australia/Sydney"@.len() == 16 && "Australia/Sydney"@[0] == 'A' && "Australia/Sydney"@[1] == 'u' && "Australia/Sydney"@[2] == 's' && "Australia/Sydney"@[5] == 'a' && "Australia/Sydney"@[7] == 'i');
    assert("AEST"@.len() == 4 && "AEST"@[0] == 'A' && "AEST"@[1] == 'E' && "AEST"@[2] == 'S');
    assert("AEDT"@.len() == 4 && "AEDT"@[0] == 'A' && "AEDT"@[1] == 'E' && "AEDT"@[2] == 'D');
    assert("Mars/Olympus"@.len() == 12 && "Mars/Olympus"@[0] == 'M' && "Mars/Olympus"@[1] == 'a' && "Mars/Olympus"@[2] == 'r' && "Mars/Olympus"@[5] == 'O' && "Mars/Olympus"@[7] == 'y');
    assert("utc"@.len() == 3 && "utc"@[0] == 'u' && "utc"@[1] == 't' && "utc"@[2] == 'c');
}

/// The compass sector of a bearing in 0..360 is the nearest of the eight
/// 45-degree directions, counted clockwise from north (338..359 wrap to
/// north), and the labels and arrows follow that clockwise order.
pub proof fn law_compass_sectors(d: int)
    requires
        0 <= d < 360,
    ensures
        compass_sector(d) == ((d + 22) / 45) % 8,
        sector_label(0) == "N"@ && sector_label(1) == "NE"@ && sector_label(2) == "E"@
            && sector_label(3) == "SE"@ && sector_label(4) == "S"@ && sector_label(5) == "SW"@
            && sector_label(6) == "W"@ && sector_label(7) == "NW"@,
        sector_arrow(0) == "↑"@ && sector_arrow(1) == "↗"@ && sector_arrow(2) == "→"@
            && sector_arrow(3) == "↘"@ && sector_arrow(4) == "↓"@ && sector_arrow(5) == "↙"@
            && sector_arrow(6) == "←"@ && sector_arrow(7) == "↖"@,
{
}

/// The time of an hour row is the hour of the entry's local instant: it
/// agrees with the hours `format_local_time` prints for the same instant
/// and timezone, followed by ":00".
pub proof fn law_hour_row_time_is_local(r: HourRow, h: HourlyForecast, loc: Location, units: Seq<char>)
    requires
        hour_row_of(r, h, loc, units),
    ensures
        r.time@.len() == 5,
        r.time@.subrange(0, 2) == hh_mm(local_instant(h.timestamp as int, loc.timezone@)).subrange(0, 2),
        r.time@.subrange(2, 5) == ":00"@,
{
    let local = local_instant(h.timestamp as int, loc.timezone@);
    lemma_dec2_len(hour_of(local) as nat);
    lemma_dec2_len(minute_of(local) as nat);
    reveal_strlit(":00");
    assert(r.time@.subrange(0, 2) =~= dec2(hour_of(local) as nat));
    assert(hh_mm(local).subrange(0, 2) =~= dec2(hour_of(local) as nat));
    assert(r.time@.subrange(2, 5) =~= ":00"@);
}

/// An IP answer that names a city is located at that city; the region name
/// only stands in when the city is missing, and "Unknown" when both are.
pub proof fn law_ip_location_prefers_city(l: Location, f: IpFields)
    requires
        ip_location_of(l, f),
    ensures
        f.city matches Some(c) ==> l.name@ == c@,
        f.city is None ==> (f.region_name matches Some(r) ==> l.name@ == r@),
        f.city is None && f.region_name is None ==> l.name@ == "Unknown"@,
{
}

/// Each condition with advice of its own gets its own outlook, whatever the
/// chance of rain and the temperatures: snow days the snow outlook,
/// thunderstorms the storm outlook, rain and drizzle a rain outlook (heavy
/// above a 70% chance), clear days a clear outlook, clouds the cloudy one,
/// fog and mist the foggy one; only the other conditions the catch-all.
pub proof fn law_outlook_follows_condition(c: WeatherCondition, pop_hundredths: int, temp_sum_tenths: int)
    ensures
        c == WeatherCondition::Snow ==> outlook_of(c, pop_hundredths, temp_sum_tenths) == DayOutlook::Snow,
        c == WeatherCondition::Thunderstorm
            ==> outlook_of(c, pop_hundredths, temp_sum_tenths) == DayOutlook::Thunderstorm,
        (c == WeatherCondition::Rain || c == WeatherCondition::Drizzle)
            ==> outlook_of(c, pop_hundredths, temp_sum_tenths)
                == (if pop_hundredths > 70 { DayOutlook::HeavyRain } else { DayOutlook::LightRain }),
        c == WeatherCondition::Clear ==> {
            let o = outlook_of(c, pop_hundredths, temp_sum_tenths);
            o == DayOutlook::ClearWarm || o == DayOutlook::ClearCool || o == DayOutlook::ClearPleasant
        },
        c == WeatherCondition::Clouds ==> outlook_of(c, pop_hundredths, temp_sum_tenths) == DayOutlook::Cloudy,
        (c == WeatherCondition::Fog || c == WeatherCondition::Mist)
            ==> outlook_of(c, pop_hundredths, temp_sum_tenths) == DayOutlook::Foggy,
        outlook_of(c, pop_hundredths, temp_sum_tenths) == DayOutlook::Unremarkable
            <==> !(c == WeatherCondition::Snow || c == WeatherCondition::Thunderstorm
                || c == WeatherCondition::Rain || c == WeatherCondition::Drizzle
                || c == WeatherCondition::Clear || c == WeatherCondition::Clouds
                || c == WeatherCondition::Fog || c == WeatherCondition::Mist),
{
}

/// The unit labels: metric shows °C and m/s, imperial °F and mph,
/// standard K and m/s, and any other units name counts as metric.
pub proof fn law_unit_labels(units: Seq<char>)
    ensures
        temp_unit("metric"@) == "°C"@ && wind_unit("metric"@) == "m/s"@,
        temp_unit("imperial"@) == "°F"@ && wind_unit("imperial"@) == "mph"@,
        temp_unit("standard"@) == "K"@ && wind_unit("standard"@) == "m/s"@,
        units != "imperial"@ && units != "standard"@ ==> temp_unit(units) == "°C"@ && wind_unit(units) == "m/s"@,
{
    reveal_strlit("metric");
    reveal_strlit("imperial");
    reveal_strlit("standard");
    assert("metric"@.len() == 6 && "imperial"@.len() == 8 && "standard"@.len() == 8);
    assert("imperial"@[0] == 'i' && "standard"@[0] == 's');
}

/// Conditions of one family share a tone and different families get
/// different tones: clear is sunny, clouds cloudy, rain and drizzle wet,
/// thunderstorm, squall and tornado stormy, snow snowy, fog, mist and haze
/// foggy, and the rest neutral.
pub proof fn law_condition_tones(c: WeatherCondition)
    ensures
        tone_of(WeatherCondition::Clear) == ConditionTone::Sunny,
        tone_of(WeatherCondition::Clouds) == ConditionTone::Cloudy,
        tone_of(WeatherCondition::Rain) == ConditionTone::Wet && tone_of(WeatherCondition::Drizzle) == ConditionTone::Wet,
        tone_of(WeatherCondition::Thunderstorm) == ConditionTone::Storm
            && tone_of(WeatherCondition::Squall) == ConditionTone::Storm
            && tone_of(WeatherCondition::Tornado) == ConditionTone::Storm,
        tone_of(WeatherCondition::Snow) == ConditionTone::Snow,
        tone_of(WeatherCondition::Fog) == ConditionTone::Fog && tone_of(WeatherCondition::Mist) == ConditionTone::Fog
            && tone_of(WeatherCondition::Haze) == ConditionTone::Fog,
        (c == WeatherCondition::Smoke || c == WeatherCondition::Dust || c == WeatherCondition::Sand
            || c == WeatherCondition::Ash || c == WeatherCondition::Unknown) <==> tone_of(c) == ConditionTone::Neutral,
{
}

/// The current block and the day rows read the clock at the location: the
/// current block's time is `format_local_time`'s `HH:MM` of the observation
/// in the location's timezone, and a day row's date and weekday are those
/// of the day's local instant.
pub proof fn law_rows_use_local_time(v: CurrentView, o: Observation, r: DayRow, index: int,
    d: DailyForecast, loc: Location, units: Seq<char>)
    ensures
        current_view_of(v, o, loc, units) ==> v.local_time@ == hh_mm(local_instant(o.observed_at as int, loc.timezone@)),
        day_row_of(r, index, d, loc, units) ==> r.date@ == month_day_padded(local_instant(d.date as int, loc.timezone@)),
        day_row_of(r, index, d, loc, units) && index >= 2 ==> r.label@ == weekday_name_of(
            weekday_of(local_instant(d.date as int, loc.timezone@))),
{
}

/// Distinct detail levels have distinct names, so a name parses back to the
/// level it names.
pub proof fn law_detail_level_names_distinct(a: DetailLevel, b: DetailLevel)
    ensures
        detail_level_name(a) == detail_level_name(b) ==> a == b,
{
    reveal_strlit("Basic");
    reveal_strlit("Standard");
    reveal_strlit("Detailed");
    reveal_strlit("Debug");
    if a != b {
        assert(detail_level_name(a).len() != detail_level_name(b).len()
            || detail_level_name(a)[0] != detail_level_name(b)[0]
            || detail_level_name(a)[2] != detail_level_name(b)[2]);
    }
}

/// Wind labels only depend on the bearing modulo 360.
pub proof fn law_wind_label_wraps(a: int, b: int)
    requires
        a >= 0,
        b >= 0,
        a % 360 == b % 360,
    ensures
        sector_label(compass_sector(a % 360)) == sector_label(compass_sector(b % 360)),
{
}

/// A clamped percentage lies in 0..=100 and clamping it again changes nothing.
pub proof fn law_pop_percent_clamps(h: int)
    ensures
        0 <= pop_percent_spec(h) <= 100,
        pop_percent_spec(pop_percent_spec(h)) == pop_percent_spec(h),
        0 <= h <= 100 ==> pop_percent_spec(h) == h,
{
}

/// Trimming twice is trimming once.
pub proof fn law_trim_idempotent(s: Seq<char>)
    ensures
        trim_spec(trim_spec(s)) == trim_spec(s),
{
    lemma_trim_is_trimmed(s);
    let t = trim_spec(s);
    if t.len() > 0 {
        assert(!white_space(t[0]));
        assert(trim_start_spec(t) == t);
        assert(!white_space(t.last()));
        assert(trim_end_spec(t) == t);
    } else {
        assert(trim_start_spec(t) == t);
        assert(trim_end_spec(t) == t);
    }
}

/// Adding a location twice adds it once: the second add returns `false` and
/// leaves the saved names as they were.
pub proof fn law_add_location_idempotent(names: Seq<Seq<char>>, name: Seq<char>)
    ensures
        !adds_location(names_after_add(names, name), name),
        names_after_add(names_after_add(names, name), name) == names_after_add(names, name),
{
    let after = names_after_add(names, name);
    if adds_location(names, name) {
        let t = trim_spec(name);
        assert(after[names.len() as int] == t);
        assert(eq_ignore_ascii_case_spec(after[names.len() as int], t));
        assert(has_location(after, t));
    }
}

/// After a location is added, a name equal to it ignoring ASCII case and
/// surrounding white space is saved.
pub proof fn law_added_location_is_saved(names: Seq<Seq<char>>, name: Seq<char>)
    requires
        trim_spec(name).len() > 0,
    ensures
        has_location(names_after_add(names, name), trim_spec(name)),
{
    let t = trim_spec(name);
    if adds_location(names, name) {
        let after = names_after_add(names, name);
        assert(eq_ignore_ascii_case_spec(after[names.len() as int], t));
    }
}

/// Removing the location an add appended restores the saved names.
pub proof fn law_remove_undoes_add(names: Seq<Seq<char>>, name: Seq<char>)
    requires
        adds_location(names, name),
    ensures
        names_after_remove(names_after_add(names, name), names.len() as int) == names,
{
    assert(names.push(trim_spec(name)).remove(names.len() as int) =~= names);
}

/// Removing at an index past the end changes nothing.
pub proof fn law_remove_out_of_range(names: Seq<Seq<char>>, index: int)
    requires
        index >= names.len(),
    ensures
        names_after_remove(names, index) == names,
{
}

/// Stepping to the next tab and back returns to the same tab, and three
/// steps go round the tab bar.
pub proof fn law_tabs_cycle(t: TuiTab)
    ensures
        prev_tab(next_tab(t)) == t,
        next_tab(prev_tab(t)) == t,
        next_tab(next_tab(next_tab(t))) == t,
        tab_step(t, TabKey::Next) == TabStep::Show(next_tab(t)),
{
}

/// Scrolling keeps a page within its lines: from a position within the
/// page, every key leads to a position within the page.
pub proof fn law_scroll_stays_on_page(scroll: int, total: int, key: PageKey)
    requires
        0 <= scroll <= total <= 65535,
    ensures
        page_step(scroll, total, key) matches PageStep::Scroll(s) ==> s <= total,
        page_step(scroll, total, key) is Quit <==> key == PageKey::Quit,
{
}

/// One line down then one line up returns to the same line when the page
/// is not at its end.
pub proof fn law_down_then_up(scroll: int, total: int)
    requires
        0 <= scroll < total <= 65535,
    ensures
        page_step(scroll, total, PageKey::Down) == PageStep::Scroll((scroll + 1) as u16),
        page_step(scroll + 1, total, PageKey::Up) == PageStep::Scroll(scroll as u16),
{
}

/// Toggling the units twice restores metric or imperial units.
pub proof fn law_toggle_units_twice(units: Seq<char>)
    requires
        units == "metric"@ || units == "imperial"@,
    ensures
        toggled_units(toggled_units(units)) == units,
{
    reveal_strlit("metric");
    reveal_strlit("imperial");
    assert("metric"@.len() != "imperial"@.len());
}

/// The search query is the trimmed text, and a blank text asks for the
/// auto-detected location.
pub proof fn law_query_is_trimmed(text: Seq<char>)
    ensures
        query_of(text) matches Some(q) ==> q == trim_spec(text) && q.len() > 0 && is_trimmed(q),
        query_of(text) is None <==> trim_spec(text).len() == 0,
{
    lemma_trim_is_trimmed(text);
}

/// Two-digit fields are two characters long.
proof fn lemma_dec2_len(n: nat)
    requires
        n < 100,
    ensures
        dec2(n).len() == 2,
{
    if n >= 10 {
        assert(dec((n / 10) as nat) == seq![digit_char((n / 10) as int)]);
    }
}

/// A local time is always printed as five characters `HH:MM`.
pub proof fn law_local_time_width(t: int)
    ensures
        hh_mm(t).len() == 5,
        hh_mm(t)[2] == ':',
{
    lemma_dec2_len(hour_of(t) as nat);
    lemma_dec2_len(minute_of(t) as nat);
}

} // verus!
