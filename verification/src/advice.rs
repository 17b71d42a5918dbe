//! The advice of the printed report: daily outlooks and activities, and
//! the recommendations for the current weather.
//!
//! Thresholds are in tenths of a degree (or of a metre per second, or of a
//! UV index unit) and probabilities in hundredths, as everywhere in the
//! library.

use vstd::prelude::*;
use crate::report::Ink;
use crate::text::{push_str, string_of};
use crate::types::{CurrentWeather, DailyForecast, WeatherCondition};

verus! {

/// One line of advice: an icon, a text and its colour.
#[derive(Debug, Clone)]
pub struct Advice {
    pub icon: &'static str,
    pub text: String,
    pub ink: Ink,
}

/// `a` is the advice `icon`, `text` in `ink`.
pub open spec fn advice_is(a: Advice, icon: Seq<char>, text: Seq<char>, ink: Ink) -> bool {
    a.icon@ == icon && a.text@ == text && a.ink == ink
}

/// A line of advice from fixed texts.
fn advice(icon: &'static str, text: &str, ink: Ink) -> (a: Advice)
    ensures
        advice_is(a, icon@, text@, ink),
{
    Advice { icon, text: string_of(text), ink }
}

/// The kind of outlook of a forecast day.
#[derive(Debug, Clone, Copy, PartialEq, Eq, Structural, Hash)]
pub enum DayOutlook {
    HeavyRain,
    LightRain,
    Thunderstorm,
    Snow,
    ClearWarm,
    ClearCool,
    ClearPleasant,
    Cloudy,
    Foggy,
    Unremarkable,
}

/// The outlook of a day from its condition, chance of precipitation
/// (hundredths) and the sum of its high and low (tenths): an average above
/// 25° is a sum above 500, below 10° a sum below 200.
pub open spec fn outlook_of(c: WeatherCondition, pop_hundredths: int, temp_sum_tenths: int) -> DayOutlook {
    match c {
        WeatherCondition::Rain | WeatherCondition::Drizzle =>
            if pop_hundredths > 70 { DayOutlook::HeavyRain } else { DayOutlook::LightRain },
        WeatherCondition::Thunderstorm => DayOutlook::Thunderstorm,
        WeatherCondition::Snow => DayOutlook::Snow,
        WeatherCondition::Clear =>
            if temp_sum_tenths > 500 { DayOutlook::ClearWarm }
            else if temp_sum_tenths < 200 { DayOutlook::ClearCool }
            else { DayOutlook::ClearPleasant },
        WeatherCondition::Clouds => DayOutlook::Cloudy,
        WeatherCondition::Fog | WeatherCondition::Mist => DayOutlook::Foggy,
        _ => DayOutlook::Unremarkable,
    }
}

/// The outlook of a forecast day.
pub fn day_outlook(day: &DailyForecast) -> (r: DayOutlook)
    ensures
        r == outlook_of(day.main_condition, day.pop_hundredths as int,
            day.temp_max_tenths as int + day.temp_min_tenths as int),
{
    let sum: i128 = day.temp_max_tenths as i128 + day.temp_min_tenths as i128;
    match day.main_condition {
        WeatherCondition::Rain | WeatherCondition::Drizzle => {
            if day.pop_hundredths > 70 { DayOutlook::HeavyRain } else { DayOutlook::LightRain }
        },
        WeatherCondition::Thunderstorm => DayOutlook::Thunderstorm,
        WeatherCondition::Snow => DayOutlook::Snow,
        WeatherCondition::Clear => {
            if sum > 500 {
                DayOutlook::ClearWarm
            } else if sum < 200 {
                DayOutlook::ClearCool
            } else {
                DayOutlook::ClearPleasant
            }
        },
        WeatherCondition::Clouds => DayOutlook::Cloudy,
        WeatherCondition::Fog | WeatherCondition::Mist => DayOutlook::Foggy,
        _ => DayOutlook::Unremarkable,
    }
}

/// The advice lines of an outlook.
pub open spec fn outlook_lines_ok(o: DayOutlook, l: Seq<Advice>) -> bool {
    match o {
        DayOutlook::HeavyRain => l.len() == 2
            && advice_is(l[0], "☔"@, "Heavy rain expected. Plan for indoor activities."@, Ink::BrightBlue)
            && advice_is(l[1], "🏠"@, "Recommended: Movies, museums, shopping, or home cooking."@, Ink::BrightBlue),
        DayOutlook::LightRain => l.len() == 2
            && advice_is(l[0], "☔"@, "Light rain expected. Bring an umbrella if going out."@, Ink::BrightBlue)
            && advice_is(l[1], "🏠"@, "Recommended: Quick errands, covered venues, or indoor sports."@, Ink::BrightBlue),
        DayOutlook::Thunderstorm => l.len() == 3
            && advice_is(l[0], "⛈️"@, "Thunderstorms expected. Stay safe indoors."@, Ink::BrightRed)
            && advice_is(l[1], "⚠️"@, "Not recommended: Any outdoor activities or travel if avoidable."@, Ink::BrightRed)
            && advice_is(l[2], "🏠"@, "Recommended: Home activities, reading, cooking, or gaming."@, Ink::BrightRed),
        DayOutlook::Snow => l.len() == 3
            && advice_is(l[0], "❄️"@, "Snowy conditions. Prepare for potential travel disruptions."@, Ink::BrightBlue)
            && advice_is(l[1], "⚠️"@, "Not recommended: Long trips or driving if inexperienced on snow."@, Ink::BrightBlue)
            && advice_is(l[2], "🏂"@, "Recommended: Snow sports if conditions permit, or cozy indoor activities."@, Ink::BrightBlue),
        DayOutlook::ClearWarm => l.len() == 2
            && advice_is(l[0], "☀️"@, "Clear and warm! Perfect for outdoor activities."@, Ink::Green)
            && advice_is(l[1], "🏊"@, "Recommended: Swimming, beach visits, park outings, or outdoor dining."@, Ink::Green),
        DayOutlook::ClearCool => l.len() == 2
            && advice_is(l[0], "☀️"@, "Clear but cool. Good for active outdoor activities."@, Ink::Green)
            && advice_is(l[1], "🏃"@, "Recommended: Hiking, running, cycling, or sightseeing with warm clothing."@, Ink::Green),
        DayOutlook::ClearPleasant => l.len() == 2
            && advice_is(l[0], "☀️"@, "Perfect weather conditions. Ideal for almost any outdoor activity."@, Ink::Green)
            && advice_is(l[1], "🌳"@, "Recommended: Parks, hiking, cycling, outdoor sports, or dining al fresco."@, Ink::Green),
        DayOutlook::Cloudy => l.len() == 2
            && advice_is(l[0], "☁️"@, "Cloudy but pleasant. Good for outdoor activities without direct sun."@, Ink::BrightBlue)
            && advice_is(l[1], "🚶"@, "Recommended: Walking tours, shopping districts, light hikes, or photography."@, Ink::BrightBlue),
        DayOutlook::Foggy => l.len() == 3
            && advice_is(l[0], "🌫️"@, "Foggy conditions. Be cautious while driving or in unfamiliar areas."@, Ink::Yellow)
            && advice_is(l[1], "⚠️"@, "Not recommended: Activities requiring good visibility or long drives."@, Ink::Yellow)
            && advice_is(l[2], "🏙️"@, "Recommended: City exploration, museums, or atmospheric photography."@, Ink::Yellow),
        DayOutlook::Unremarkable => l.len() == 1
            && advice_is(l[0], "📋"@, "Check local forecasts for specific activity recommendations."@, Ink::Normal),
    }
}

/// The advice lines of an outlook.
pub fn outlook_lines(o: DayOutlook) -> (l: Vec<Advice>)
    ensures
        outlook_lines_ok(o, l@),
{
    let mut l = Vec::new();
    match o {
        DayOutlook::HeavyRain => {
            l.push(advice("☔", "Heavy rain expected. Plan for indoor activities.", Ink::BrightBlue));
            l.push(advice("🏠", "Recommended: Movies, museums, shopping, or home cooking.", Ink::BrightBlue));
        },
        DayOutlook::LightRain => {
            l.push(advice("☔", "Light rain expected. Bring an umbrella if going out.", Ink::BrightBlue));
            l.push(advice("🏠", "Recommended: Quick errands, covered venues, or indoor sports.", Ink::BrightBlue));
        },
        DayOutlook::Thunderstorm => {
            l.push(advice("⛈️", "Thunderstorms expected. Stay safe indoors.", Ink::BrightRed));
            l.push(advice("⚠️", "Not recommended: Any outdoor activities or travel if avoidable.", Ink::BrightRed));
            l.push(advice("🏠", "Recommended: Home activities, reading, cooking, or gaming.", Ink::BrightRed));
        },
        DayOutlook::Snow => {
            l.push(advice("❄️", "Snowy conditions. Prepare for potential travel disruptions.", Ink::BrightBlue));
            l.push(advice("⚠️", "Not recommended: Long trips or driving if inexperienced on snow.", Ink::BrightBlue));
            l.push(advice("🏂", "Recommended: Snow sports if conditions permit, or cozy indoor activities.", Ink::BrightBlue));
        },
        DayOutlook::ClearWarm => {
            l.push(advice("☀️", "Clear and warm! Perfect for outdoor activities.", Ink::Green));
            l.push(advice("🏊", "Recommended: Swimming, beach visits, park outings, or outdoor dining.", Ink::Green));
        },
        DayOutlook::ClearCool => {
            l.push(advice("☀️", "Clear but cool. Good for active outdoor activities.", Ink::Green));
            l.push(advice("🏃", "Recommended: Hiking, running, cycling, or sightseeing with warm clothing.", Ink::Green));
        },
        DayOutlook::ClearPleasant => {
            l.push(advice("☀️", "Perfect weather conditions. Ideal for almost any outdoor activity.", Ink::Green));
            l.push(advice("🌳", "Recommended: Parks, hiking, cycling, outdoor sports, or dining al fresco.", Ink::Green));
        },
        DayOutlook::Cloudy => {
            l.push(advice("☁️", "Cloudy but pleasant. Good for outdoor activities without direct sun.", Ink::BrightBlue));
            l.push(advice("🚶", "Recommended: Walking tours, shopping districts, light hikes, or photography.", Ink::BrightBlue));
        },
        DayOutlook::Foggy => {
            l.push(advice("🌫️", "Foggy conditions. Be cautious while driving or in unfamiliar areas.", Ink::Yellow));
            l.push(advice("⚠️", "Not recommended: Activities requiring good visibility or long drives.", Ink::Yellow));
            l.push(advice("🏙️", "Recommended: City exploration, museums, or atmospheric photography.", Ink::Yellow));
        },
        DayOutlook::Unremarkable => {
            l.push(advice("📋", "Check local forecasts for specific activity recommendations.", Ink::Normal));
        },
    }
    l
}

/// The UV advice of a forecast day (UV index in tenths): above 7 very high,
/// above 5 high, else none.
pub open spec fn day_uv_advice_ok(uv_tenths: int, r: Option<Advice>) -> bool {
    if uv_tenths > 70 {
        r matches Some(a) && advice_is(a, "🧴"@, "Very high UV index! Sunscreen and protective clothing essential."@, Ink::BrightYellow)
    } else if uv_tenths > 50 {
        r matches Some(a) && advice_is(a, "🧴"@, "High UV index. Wear sunscreen and seek shade during midday hours."@, Ink::Yellow)
    } else {
        r is None
    }
}

/// The UV advice of a forecast day.
pub fn day_uv_advice(uv_tenths: i64) -> (r: Option<Advice>)
    ensures
        day_uv_advice_ok(uv_tenths as int, r),
{
    if uv_tenths > 70 {
        Some(advice("🧴", "Very high UV index! Sunscreen and protective clothing essential.", Ink::BrightYellow))
    } else if uv_tenths > 50 {
        Some(advice("🧴", "High UV index. Wear sunscreen and seek shade during midday hours.", Ink::Yellow))
    } else {
        None
    }
}

/// The kind of activities a day suits.
#[derive(Debug, Clone, Copy, PartialEq, Eq, Structural, Hash)]
pub enum ActivityAdvice {
    Indoor,
    HotOutdoor,
    Outdoor,
    Mixed,
}

/// The activities of a day: rainy days (rain, drizzle, thunderstorm) are for
/// indoors; clear days with an average above 25° (sum of high and low above
/// 500 tenths) for the beach; other clear days for outdoors; the rest mixed.
pub open spec fn activity_of(c: WeatherCondition, temp_sum_tenths: int) -> ActivityAdvice {
    let rainy = c == WeatherCondition::Rain || c == WeatherCondition::Drizzle
        || c == WeatherCondition::Thunderstorm;
    let clear = c == WeatherCondition::Clear;
    if rainy { ActivityAdvice::Indoor }
    else if clear && temp_sum_tenths > 500 { ActivityAdvice::HotOutdoor }
    else if clear { ActivityAdvice::Outdoor }
    else { ActivityAdvice::Mixed }
}

/// The two activity lines of an advice.
pub open spec fn activity_lines_of(a: ActivityAdvice) -> (Seq<char>, Seq<char>) {
    match a {
        ActivityAdvice::Indoor => ("• Indoor: 👍 Museums, movies, shopping, home activities"@,
            "• Outdoor: 👎 Not recommended"@),
        ActivityAdvice::HotOutdoor => ("• Outdoor: 👍 Beach, parks, hiking, outdoor dining"@,
            "• Sports: 👍 Swimming, cycling, team sports"@),
        ActivityAdvice::Outdoor => ("• Outdoor: 👍 Hiking, sightseeing, parks"@,
            "• Sports: 👍 Running, cycling, team sports"@),
        ActivityAdvice::Mixed => ("• Outdoor: 👍 Walking, urban exploration, photography"@,
            "• Indoor/Outdoor: 👍 Shopping, museums, casual dining"@),
    }
}

/// The activities a forecast day suits, and their two lines.
pub fn day_activities(day: &DailyForecast) -> (r: (ActivityAdvice, &'static str, &'static str))
    ensures
        r.0 == activity_of(day.main_condition, day.temp_max_tenths as int + day.temp_min_tenths as int),
        r.1@ == activity_lines_of(r.0).0,
        r.2@ == activity_lines_of(r.0).1,
{
    let sum: i128 = day.temp_max_tenths as i128 + day.temp_min_tenths as i128;
    let rainy = match day.main_condition {
        WeatherCondition::Rain | WeatherCondition::Drizzle | WeatherCondition::Thunderstorm => true,
        _ => false,
    };
    let clear = match day.main_condition {
        WeatherCondition::Clear => true,
        _ => false,
    };
    if rainy {
        (ActivityAdvice::Indoor, "• Indoor: 👍 Museums, movies, shopping, home activities",
            "• Outdoor: 👎 Not recommended")
    } else if clear && sum > 500 {
        (ActivityAdvice::HotOutdoor, "• Outdoor: 👍 Beach, parks, hiking, outdoor dining",
            "• Sports: 👍 Swimming, cycling, team sports")
    } else if clear {
        (ActivityAdvice::Outdoor, "• Outdoor: 👍 Hiking, sightseeing, parks",
            "• Sports: 👍 Running, cycling, team sports")
    } else {
        (ActivityAdvice::Mixed, "• Outdoor: 👍 Walking, urban exploration, photography",
            "• Indoor/Outdoor: 👍 Shopping, museums, casual dining")
    }
}

/// Parts of the day.
#[derive(Debug, Clone, Copy, PartialEq, Eq, Structural, Hash)]
pub enum TimeOfDay {
    Morning,
    Afternoon,
    Evening,
    Night,
}

/// The part of the day of an hour: morning 5–11, afternoon 12–16,
/// evening 17–20, night otherwise.
pub open spec fn time_of_day_of(hour: int) -> TimeOfDay {
    if 5 <= hour < 12 { TimeOfDay::Morning }
    else if 12 <= hour < 17 { TimeOfDay::Afternoon }
    else if 17 <= hour < 21 { TimeOfDay::Evening }
    else { TimeOfDay::Night }
}

/// The word of a part of the day.
pub open spec fn time_of_day_word(t: TimeOfDay) -> Seq<char> {
    match t {
        TimeOfDay::Morning => "morning"@,
        TimeOfDay::Afternoon => "afternoon"@,
        TimeOfDay::Evening => "evening"@,
        TimeOfDay::Night => "night"@,
    }
}

/// The part of the day of an hour.
pub fn time_of_day(hour: u32) -> (r: TimeOfDay)
    ensures
        r == time_of_day_of(hour as int),
{
    if 5 <= hour && hour < 12 {
        TimeOfDay::Morning
    } else if 12 <= hour && hour < 17 {
        TimeOfDay::Afternoon
    } else if 17 <= hour && hour < 21 {
        TimeOfDay::Evening
    } else {
        TimeOfDay::Night
    }
}

/// The word of a part of the day.
fn time_word(t: TimeOfDay) -> (r: &'static str)
    ensures
        r@ == time_of_day_word(t),
{
    match t {
        TimeOfDay::Morning => "morning",
        TimeOfDay::Afternoon => "afternoon",
        TimeOfDay::Evening => "evening",
        TimeOfDay::Night => "night",
    }
}

/// A text with the word of the part of the day between two fixed parts.
fn around(before: &str, t: TimeOfDay, after: &str) -> (s: String)
    ensures
        s@ == before@ + time_of_day_word(t) + after@,
{
    let mut s = string_of(before);
    push_str(&mut s, time_word(t));
    push_str(&mut s, after);
    s
}

/// The comfort thresholds (freezing, cold, mild, warm, hot) in tenths of the unit.
pub open spec fn thresholds(is_imperial: bool) -> (int, int, int, int, int) {
    if is_imperial { (320, 500, 680, 770, 860) } else { (0, 100, 200, 250, 300) }
}

/// The clothing advice for a felt temperature (tenths) at a part of the day.
pub open spec fn clothing_advice_ok(feels_tenths: int, is_imperial: bool, t: TimeOfDay, a: Advice) -> bool {
    let (very_cold, cold, mild, warm, hot) = thresholds(is_imperial);
    let w = time_of_day_word(t);
    if feels_tenths < very_cold {
        advice_is(a, "🧣"@, "Very cold "@ + w + "! Wear heavy winter clothing, hat, gloves and scarf."@, Ink::Yellow)
    } else if feels_tenths < cold {
        advice_is(a, "🧥"@, "Cold "@ + w + " conditions. Wear a warm jacket and layers."@, Ink::Yellow)
    } else if feels_tenths < mild {
        advice_is(a, "🧥"@, "Cool "@ + w + " weather. A light jacket or sweater recommended."@, Ink::BrightBlue)
    } else if feels_tenths < warm {
        advice_is(a, "👕"@, "Pleasant "@ + w + " temperature. Light clothing should be comfortable."@, Ink::Green)
    } else if feels_tenths < hot {
        advice_is(a, "👕"@, "Warm "@ + w + " weather. Light clothing and sun protection advised."@, Ink::BrightYellow)
    } else {
        advice_is(a, "🌡️"@, "Hot "@ + w + " weather! Stay hydrated and seek shade."@, Ink::BrightRed)
    }
}

/// The clothing advice for a felt temperature at a part of the day.
pub fn clothing_advice(feels_tenths: i64, is_imperial: bool, t: TimeOfDay) -> (a: Advice)
    ensures
        clothing_advice_ok(feels_tenths as int, is_imperial, t, a),
{
    let very_cold: i64 = if is_imperial { 320 } else { 0 };
    let cold: i64 = if is_imperial { 500 } else { 100 };
    let mild: i64 = if is_imperial { 680 } else { 200 };
    let warm: i64 = if is_imperial { 770 } else { 250 };
    let hot: i64 = if is_imperial { 860 } else { 300 };
    if feels_tenths < very_cold {
        Advice { icon: "🧣", text: around("Very cold ", t, "! Wear heavy winter clothing, hat, gloves and scarf."), ink: Ink::Yellow }
    } else if feels_tenths < cold {
        Advice { icon: "🧥", text: around("Cold ", t, " conditions. Wear a warm jacket and layers."), ink: Ink::Yellow }
    } else if feels_tenths < mild {
        Advice { icon: "🧥", text: around("Cool ", t, " weather. A light jacket or sweater recommended."), ink: Ink::BrightBlue }
    } else if feels_tenths < warm {
        Advice { icon: "👕", text: around("Pleasant ", t, " temperature. Light clothing should be comfortable."), ink: Ink::Green }
    } else if feels_tenths < hot {
        Advice { icon: "👕", text: around("Warm ", t, " weather. Light clothing and sun protection advised."), ink: Ink::BrightYellow }
    } else {
        Advice { icon: "🌡️", text: around("Hot ", t, " weather! Stay hydrated and seek shade."), ink: Ink::BrightRed }
    }
}

/// The UV advice for now (UV index in tenths): none at night; above 5 high,
/// above 2 moderate.
pub open spec fn uv_advice_ok(uv_tenths: int, t: TimeOfDay, r: Option<Advice>) -> bool {
    if t == TimeOfDay::Night {
        r is None
    } else if uv_tenths > 50 {
        r matches Some(a) && advice_is(a, "🧴"@, "High UV levels! Wear sunscreen, hat and sunglasses."@, Ink::BrightYellow)
    } else if uv_tenths > 20 {
        r matches Some(a) && advice_is(a, "🧴"@, "Moderate UV levels. Sun protection advised."@, Ink::Yellow)
    } else {
        r is None
    }
}

/// The UV advice for now.
pub fn uv_advice(uv_tenths: i64, t: TimeOfDay) -> (r: Option<Advice>)
    ensures
        uv_advice_ok(uv_tenths as int, t, r),
{
    match t {
        TimeOfDay::Night => None,
        _ => {
            if uv_tenths > 50 {
                Some(advice("🧴", "High UV levels! Wear sunscreen, hat and sunglasses.", Ink::BrightYellow))
            } else if uv_tenths > 20 {
                Some(advice("🧴", "Moderate UV levels. Sun protection advised.", Ink::Yellow))
            } else {
                None
            }
        },
    }
}

/// The advice for the current condition at a part of the day; `warm_tenths`
/// is the warm threshold the temperature is compared with.
pub open spec fn condition_advice_ok(c: WeatherCondition, t: TimeOfDay, temp_tenths: int, warm_tenths: int,
    r: Option<Advice>) -> bool
{
    let w = time_of_day_word(t);
    let night = t == TimeOfDay::Night;
    match c {
        WeatherCondition::Rain | WeatherCondition::Drizzle => r matches Some(a)
            && advice_is(a, "☔"@, "Rainy "@ + w + " conditions. Bring an umbrella or raincoat."@, Ink::BrightBlue),
        WeatherCondition::Thunderstorm => r matches Some(a)
            && advice_is(a, "⛈️"@, "Thunderstorms in the area this "@ + w
                + ". Seek shelter and avoid open spaces."@, Ink::BrightRed),
        WeatherCondition::Snow => r matches Some(a)
            && advice_is(a, "❄️"@, "Snowy "@ + w + " conditions. Dress warmly and take care on roads."@, Ink::BrightBlue),
        WeatherCondition::Fog | WeatherCondition::Mist => r matches Some(a) && if night || t == TimeOfDay::Evening {
            advice_is(a, "🌫️"@, "Reduced visibility due to fog in the dark. Drive very carefully."@, Ink::Yellow)
        } else {
            advice_is(a, "🌫️"@, "Reduced visibility due to fog. Drive carefully."@, Ink::Yellow)
        },
        WeatherCondition::Clear => r matches Some(a) && if night {
            advice_is(a, "🌙"@, "Clear night sky. Great for stargazing!"@, Ink::BrightBlue)
        } else if temp_tenths > warm_tenths {
            advice_is(a, "☀️"@, "Clear and warm "@ + w + ". Great for outdoor activities!"@, Ink::Green)
        } else {
            advice_is(a, "☀️"@, "Clear "@ + w + " skies. Enjoy the weather!"@, Ink::Green)
        },
        WeatherCondition::Clouds => r matches Some(a) && if night {
            advice_is(a, "☁️"@, "Cloudy night. No stargazing tonight."@, Ink::BrightBlue)
        } else {
            advice_is(a, "☁️"@, "Cloudy "@ + w + " conditions. Good for outdoor activities without direct sun."@,
                Ink::BrightBlue)
        },
        _ => r is None,
    }
}

/// The advice for the current condition at a part of the day.
pub fn condition_advice(c: WeatherCondition, t: TimeOfDay, temp_tenths: i64, warm_tenths: i64) -> (r: Option<Advice>)
    ensures
        condition_advice_ok(c, t, temp_tenths as int, warm_tenths as int, r),
{
    let night = match t {
        TimeOfDay::Night => true,
        _ => false,
    };
    let evening = match t {
        TimeOfDay::Evening => true,
        _ => false,
    };
    match c {
        WeatherCondition::Rain | WeatherCondition::Drizzle => Some(Advice {
            icon: "☔",
            text: around("Rainy ", t, " conditions. Bring an umbrella or raincoat."),
            ink: Ink::BrightBlue,
        }),
        WeatherCondition::Thunderstorm => Some(Advice {
            icon: "⛈️",
            text: around("Thunderstorms in the area this ", t, ". Seek shelter and avoid open spaces."),
            ink: Ink::BrightRed,
        }),
        WeatherCondition::Snow => Some(Advice {
            icon: "❄️",
            text: around("Snowy ", t, " conditions. Dress warmly and take care on roads."),
            ink: Ink::BrightBlue,
        }),
        WeatherCondition::Fog | WeatherCondition::Mist => {
            if night || evening {
                Some(advice("🌫️", "Reduced visibility due to fog in the dark. Drive very carefully.", Ink::Yellow))
            } else {
                Some(advice("🌫️", "Reduced visibility due to fog. Drive carefully.", Ink::Yellow))
            }
        },
        WeatherCondition::Clear => {
            if night {
                Some(advice("🌙", "Clear night sky. Great for stargazing!", Ink::BrightBlue))
            } else if temp_tenths > warm_tenths {
                Some(Advice {
                    icon: "☀️",
                    text: around("Clear and warm ", t, ". Great for outdoor activities!"),
                    ink: Ink::Green,
                })
            } else {
                Some(Advice { icon: "☀️", text: around("Clear ", t, " skies. Enjoy the weather!"), ink: Ink::Green })
            }
        },
        WeatherCondition::Clouds => {
            if night {
                Some(advice("☁️", "Cloudy night. No stargazing tonight.", Ink::BrightBlue))
            } else {
                Some(Advice {
                    icon: "☁️",
                    text: around("Cloudy ", t, " conditions. Good for outdoor activities without direct sun."),
                    ink: Ink::BrightBlue,
                })
            }
        },
        _ => None,
    }
}

/// The wind advice (speed in tenths): strong winds above 10.
pub open spec fn wind_advice_ok(speed_tenths: int, t: TimeOfDay, r: Option<Advice>) -> bool {
    if speed_tenths > 100 {
        r matches Some(a) && advice_is(a, "💨"@, "Strong winds this "@ + time_of_day_word(t)
            + ". Secure loose objects and be careful outdoors."@, Ink::Yellow)
    } else {
        r is None
    }
}

/// The wind advice.
pub fn wind_advice(speed_tenths: i64, t: TimeOfDay) -> (r: Option<Advice>)
    ensures
        wind_advice_ok(speed_tenths as int, t, r),
{
    if speed_tenths > 100 {
        Some(Advice {
            icon: "💨",
            text: around("Strong winds this ", t, ". Secure loose objects and be careful outdoors."),
            ink: Ink::Yellow,
        })
    } else {
        None
    }
}

/// The list of present items among the optional ones, in order.
pub open spec fn present(items: Seq<Option<Advice>>) -> Seq<Advice>
    decreases items.len(),
{
    if items.len() == 0 {
        Seq::empty()
    } else {
        let rest = present(items.drop_first());
        match items[0] {
            Some(a) => seq![a] + rest,
            None => rest,
        }
    }
}

/// Appends an optional item.
fn push_opt(v: &mut Vec<Advice>, a: Option<Advice>)
    ensures
        final(v)@ == match a {
            Some(x) => old(v)@.push(x),
            None => old(v)@,
        },
{
    match a {
        Some(x) => v.push(x),
        None => {},
    }
}

/// The recommendations for the current weather at the given UTC hour, in
/// the order they are printed: clothing, UV, condition, wind.
pub fn recommendations(weather: &CurrentWeather, utc_hour: u32, is_imperial: bool) -> (r: Vec<Advice>)
    ensures
        r@.len() >= 1,
        clothing_advice_ok(weather.feels_like_tenths as int, is_imperial, time_of_day_of(utc_hour as int), r@[0]),
        ({
            let t = time_of_day_of(utc_hour as int);
            exists|u: Option<Advice>, c: Option<Advice>, w: Option<Advice>|
                uv_advice_ok(weather.uv_index_tenths as int, t, u)
                && condition_advice_ok(weather.main_condition, t, weather.temperature_tenths as int,
                    thresholds(is_imperial).3, c)
                && wind_advice_ok(weather.wind_speed_tenths as int, t, w)
                && #[trigger] r@.drop_first() == present(seq![u, c, w])
        }),
{
    let t = time_of_day(utc_hour);
    let warm: i64 = if is_imperial { 770 } else { 250 };
    let mut v: Vec<Advice> = Vec::new();
    v.push(clothing_advice(weather.feels_like_tenths, is_imperial, t));
    let u = uv_advice(weather.uv_index_tenths, t);
    let c = condition_advice(weather.main_condition, t, weather.temperature_tenths, warm);
    let w = wind_advice(weather.wind_speed_tenths, t);
    let ghost first = v@[0];
    proof {
        let items = seq![u, c, w];
        assert(items.drop_first().drop_first().drop_first() =~= Seq::<Option<Advice>>::empty());
        assert(items.drop_first() =~= seq![c, w]);
        assert(items.drop_first().drop_first() =~= seq![w]);
    }
    push_opt(&mut v, u);
    push_opt(&mut v, c);
    push_opt(&mut v, w);
    proof {
        let items = seq![u, c, w];
        reveal_with_fuel(present, 4);
        let p = present(items);
        assert(v@.drop_first() =~= p);
    }
    v
}

} // verus!
