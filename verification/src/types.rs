//! Domain models: conditions, locations, forecasts and configuration.
//!
//! Measurements are held as fixed-point integers so that every rule that
//! reads them can be stated exactly: temperatures, speeds, amounts and the
//! UV index in tenths (`205` is 20.5), probabilities of precipitation in
//! hundredths (`60` is 0.6), and instants as Unix timestamps in seconds.

use vstd::prelude::*;
use crate::text::{all_ascii, ascii_lowercase, str_eq, string_of, to_lowercase, unicode_lowercase};

verus! {

/// Weather condition categories.
#[derive(Debug, Clone, Copy, PartialEq, Eq, Structural, Hash)]
pub enum WeatherCondition {
    Clear,
    Clouds,
    Rain,
    Drizzle,
    Thunderstorm,
    Snow,
    Mist,
    Fog,
    Smoke,
    Haze,
    Dust,
    Sand,
    Ash,
    Squall,
    Tornado,
    Unknown,
}

/// The condition named by an already lowercased key.
pub open spec fn condition_from_key(key: Seq<char>) -> WeatherCondition {
    if key == "clear"@ { WeatherCondition::Clear }
    else if key == "clouds"@ { WeatherCondition::Clouds }
    else if key == "rain"@ { WeatherCondition::Rain }
    else if key == "drizzle"@ { WeatherCondition::Drizzle }
    else if key == "thunderstorm"@ { WeatherCondition::Thunderstorm }
    else if key == "snow"@ { WeatherCondition::Snow }
    else if key == "mist"@ { WeatherCondition::Mist }
    else if key == "fog"@ { WeatherCondition::Fog }
    else if key == "smoke"@ { WeatherCondition::Smoke }
    else if key == "haze"@ { WeatherCondition::Haze }
    else if key == "dust"@ { WeatherCondition::Dust }
    else if key == "sand"@ { WeatherCondition::Sand }
    else if key == "ash"@ { WeatherCondition::Ash }
    else if key == "squall"@ { WeatherCondition::Squall }
    else if key == "tornado"@ { WeatherCondition::Tornado }
    else { WeatherCondition::Unknown }
}

/// The lowercase key that names a condition (`"unknown"` for `Unknown`).
pub open spec fn condition_key(c: WeatherCondition) -> Seq<char> {
    match c {
        WeatherCondition::Clear => "clear"@,
        WeatherCondition::Clouds => "clouds"@,
        WeatherCondition::Rain => "rain"@,
        WeatherCondition::Drizzle => "drizzle"@,
        WeatherCondition::Thunderstorm => "thunderstorm"@,
        WeatherCondition::Snow => "snow"@,
        WeatherCondition::Mist => "mist"@,
        WeatherCondition::Fog => "fog"@,
        WeatherCondition::Smoke => "smoke"@,
        WeatherCondition::Haze => "haze"@,
        WeatherCondition::Dust => "dust"@,
        WeatherCondition::Sand => "sand"@,
        WeatherCondition::Ash => "ash"@,
        WeatherCondition::Squall => "squall"@,
        WeatherCondition::Tornado => "tornado"@,
        WeatherCondition::Unknown => "unknown"@,
    }
}

/// The emoji shown for a condition.
pub open spec fn emoji_of(c: WeatherCondition) -> Seq<char> {
    match c {
        WeatherCondition::Clear => "☀️"@,
        WeatherCondition::Clouds => "☁️"@,
        WeatherCondition::Rain => "🌧️"@,
        WeatherCondition::Drizzle => "🌦️"@,
        WeatherCondition::Thunderstorm => "⛈️"@,
        WeatherCondition::Snow => "❄️"@,
        WeatherCondition::Mist => "🌫️"@,
        WeatherCondition::Fog => "🌫️"@,
        WeatherCondition::Smoke => "🌫️"@,
        WeatherCondition::Haze => "🌫️"@,
        WeatherCondition::Dust => "🌫️"@,
        WeatherCondition::Sand => "🌫️"@,
        WeatherCondition::Ash => "🌫️"@,
        WeatherCondition::Squall => "💨"@,
        WeatherCondition::Tornado => "🌪️"@,
        WeatherCondition::Unknown => "❓"@,
    }
}

/// The human-readable name of a condition.
pub open spec fn display_name(c: WeatherCondition) -> Seq<char> {
    match c {
        WeatherCondition::Clear => "Clear"@,
        WeatherCondition::Clouds => "Cloudy"@,
        WeatherCondition::Rain => "Rainy"@,
        WeatherCondition::Drizzle => "Drizzle"@,
        WeatherCondition::Thunderstorm => "Thunderstorm"@,
        WeatherCondition::Snow => "Snowy"@,
        WeatherCondition::Mist => "Misty"@,
        WeatherCondition::Fog => "Foggy"@,
        WeatherCondition::Smoke => "Smoky"@,
        WeatherCondition::Haze => "Hazy"@,
        WeatherCondition::Dust => "Dusty"@,
        WeatherCondition::Sand => "Sandy"@,
        WeatherCondition::Ash => "Ashy"@,
        WeatherCondition::Squall => "Squall"@,
        WeatherCondition::Tornado => "Tornado"@,
        WeatherCondition::Unknown => "Unknown"@,
    }
}

impl WeatherCondition {
    /// Parses a condition name case-insensitively; anything unrecognised is
    /// `Unknown`.
    pub fn from_str(condition: &str) -> (r: WeatherCondition)
        ensures
            r == condition_from_key(unicode_lowercase(condition@)),
            all_ascii(condition@) ==> r == condition_from_key(ascii_lowercase(condition@)),
    {
        let lower = to_lowercase(condition);
        let key = lower.as_str();
        if str_eq(key, "clear") { WeatherCondition::Clear }
        else if str_eq(key, "clouds") { WeatherCondition::Clouds }
        else if str_eq(key, "rain") { WeatherCondition::Rain }
        else if str_eq(key, "drizzle") { WeatherCondition::Drizzle }
        else if str_eq(key, "thunderstorm") { WeatherCondition::Thunderstorm }
        else if str_eq(key, "snow") { WeatherCondition::Snow }
        else if str_eq(key, "mist") { WeatherCondition::Mist }
        else if str_eq(key, "fog") { WeatherCondition::Fog }
        else if str_eq(key, "smoke") { WeatherCondition::Smoke }
        else if str_eq(key, "haze") { WeatherCondition::Haze }
        else if str_eq(key, "dust") { WeatherCondition::Dust }
        else if str_eq(key, "sand") { WeatherCondition::Sand }
        else if str_eq(key, "ash") { WeatherCondition::Ash }
        else if str_eq(key, "squall") { WeatherCondition::Squall }
        else if str_eq(key, "tornado") { WeatherCondition::Tornado }
        else { WeatherCondition::Unknown }
    }

    /// The emoji shown for this condition.
    pub fn get_emoji(&self) -> (r: &'static str)
        ensures
            r@ == emoji_of(*self),
    {
        match self {
            WeatherCondition::Clear => "☀️",
            WeatherCondition::Clouds => "☁️",
            WeatherCondition::Rain => "🌧️",
            WeatherCondition::Drizzle => "🌦️",
            WeatherCondition::Thunderstorm => "⛈️",
            WeatherCondition::Snow => "❄️",
            WeatherCondition::Mist => "🌫️",
            WeatherCondition::Fog => "🌫️",
            WeatherCondition::Smoke => "🌫️",
            WeatherCondition::Haze => "🌫️",
            WeatherCondition::Dust => "🌫️",
            WeatherCondition::Sand => "🌫️",
            WeatherCondition::Ash => "🌫️",
            WeatherCondition::Squall => "💨",
            WeatherCondition::Tornado => "🌪️",
            WeatherCondition::Unknown => "❓",
        }
    }

    /// The human-readable name of this condition ("Cloudy", "Rainy", …).
    pub fn name(&self) -> (r: &'static str)
        ensures
            r@ == display_name(*self),
    {
        match self {
            WeatherCondition::Clear => "Clear",
            WeatherCondition::Clouds => "Cloudy",
            WeatherCondition::Rain => "Rainy",
            WeatherCondition::Drizzle => "Drizzle",
            WeatherCondition::Thunderstorm => "Thunderstorm",
            WeatherCondition::Snow => "Snowy",
            WeatherCondition::Mist => "Misty",
            WeatherCondition::Fog => "Foggy",
            WeatherCondition::Smoke => "Smoky",
            WeatherCondition::Haze => "Hazy",
            WeatherCondition::Dust => "Dusty",
            WeatherCondition::Sand => "Sandy",
            WeatherCondition::Ash => "Ashy",
            WeatherCondition::Squall => "Squall",
            WeatherCondition::Tornado => "Tornado",
            WeatherCondition::Unknown => "Unknown",
        }
    }

    /// The human-readable name of this condition as an owned string.
    pub fn to_string(&self) -> (r: String)
        ensures
            r@ == display_name(*self),
    {
        string_of(self.name())
    }
}

/// Level of detail for weather output.
#[derive(Debug, Clone, Copy, PartialEq, Eq, Structural, PartialOrd, Ord, Hash)]
pub enum DetailLevel {
    Basic,
    Standard,
    Detailed,
    Debug,
}

/// The name under which a detail level is shown and parsed.
pub open spec fn detail_level_name(d: DetailLevel) -> Seq<char> {
    match d {
        DetailLevel::Basic => "Basic"@,
        DetailLevel::Standard => "Standard"@,
        DetailLevel::Detailed => "Detailed"@,
        DetailLevel::Debug => "Debug"@,
    }
}

/// The error returned when a string names no detail level.
#[derive(Debug, Clone, Copy, PartialEq, Eq, Structural)]
pub enum ParseError {
    VariantNotFound,
}

impl DetailLevel {
    /// The name of this detail level.
    pub fn to_string(&self) -> (r: String)
        ensures
            r@ == detail_level_name(*self),
    {
        match self {
            DetailLevel::Basic => string_of("Basic"),
            DetailLevel::Standard => string_of("Standard"),
            DetailLevel::Detailed => string_of("Detailed"),
            DetailLevel::Debug => string_of("Debug"),
        }
    }

    /// Parses the exact name of a detail level.
    pub fn from_str(s: &str) -> (r: Result<DetailLevel, ParseError>)
        ensures
            r matches Ok(d) ==> detail_level_name(d) == s@,
            r is Err ==> (forall|d: DetailLevel| detail_level_name(d) != s@),
            r is Err ==> r == Err::<DetailLevel, ParseError>(ParseError::VariantNotFound),
    {
        if str_eq(s, "Basic") {
            Ok(DetailLevel::Basic)
        } else if str_eq(s, "Standard") {
            Ok(DetailLevel::Standard)
        } else if str_eq(s, "Detailed") {
            Ok(DetailLevel::Detailed)
        } else if str_eq(s, "Debug") {
            Ok(DetailLevel::Debug)
        } else {
            assert forall|d: DetailLevel| detail_level_name(d) != s@ by {
                match d {
                    DetailLevel::Basic => {},
                    DetailLevel::Standard => {},
                    DetailLevel::Detailed => {},
                    DetailLevel::Debug => {},
                }
            }
            Err(ParseError::VariantNotFound)
        }
    }
}

/// Configuration options for the weather tool.
#[derive(Debug, Clone)]
pub struct WeatherConfig {
    pub units: String,
    pub location: Option<String>,
    pub json_output: bool,
    pub animation_enabled: bool,
    pub detail_level: DetailLevel,
    pub no_charts: bool,
}

impl WeatherConfig {
    /// Whether this is the default configuration: metric units, no fixed
    /// location, animated standard-detail output with charts.
    pub open spec fn is_default(&self) -> bool {
        &&& self.units@ == "metric"@
        &&& self.location is None
        &&& !self.json_output
        &&& self.animation_enabled
        &&& self.detail_level == DetailLevel::Standard
        &&& !self.no_charts
    }
}

impl Default for WeatherConfig {
    fn default() -> (r: Self)
        ensures
            r.is_default(),
    {
        WeatherConfig {
            units: string_of("metric"),
            location: None,
            json_output: false,
            animation_enabled: true,
            detail_level: DetailLevel::Standard,
            no_charts: false,
        }
    }
}

/// A place whose weather is shown. Its coordinates only serve the network
/// lookups of the front-ends and are kept there.
#[derive(Debug, Clone)]
pub struct Location {
    pub name: String,
    pub country: String,
    pub country_code: String,
    pub timezone: String,
    pub region: Option<String>,
    pub state: Option<String>,
}

impl Location {
    /// Whether this is the placeholder location used before one is known.
    pub open spec fn is_default(&self) -> bool {
        &&& self.name@ == "Unknown"@
        &&& self.country@ == "Unknown"@
        &&& self.country_code@ == "UN"@
        &&& self.timezone@ == "UTC"@
        &&& self.region is None
        &&& self.state is None
    }
}

impl Default for Location {
    fn default() -> (r: Self)
        ensures
            r.is_default(),
    {
        Location {
            name: string_of("Unknown"),
            country: string_of("Unknown"),
            country_code: string_of("UN"),
            timezone: string_of("UTC"),
            region: None,
            state: None,
        }
    }
}

/// A detailed weather description as delivered by a provider.
#[derive(Debug, Clone)]
pub struct WeatherDescription {
    pub id: u32,
    pub main: String,
    pub description: String,
    pub icon: String,
}

/// Current weather data.
#[derive(Debug, Clone)]
pub struct CurrentWeather {
    pub timestamp: i64,
    pub temperature_tenths: i64,
    pub feels_like_tenths: i64,
    pub humidity: u8,
    pub pressure: u32,
    pub wind_speed_tenths: i64,
    pub wind_direction: u16,
    pub conditions: Vec<WeatherDescription>,
    pub main_condition: WeatherCondition,
    pub visibility: u32,
    pub clouds: u8,
    pub uv_index_tenths: i64,
    pub sunrise: i64,
    pub sunset: i64,
    pub rain_last_hour_tenths: Option<i64>,
    pub snow_last_hour_tenths: Option<i64>,
    pub air_quality_index: Option<u8>,
}

/// Forecast data for one hour.
#[derive(Debug, Clone)]
pub struct HourlyForecast {
    pub timestamp: i64,
    pub temperature_tenths: i64,
    pub feels_like_tenths: i64,
    pub humidity: u8,
    pub pressure: u32,
    pub wind_speed_tenths: i64,
    pub wind_direction: u16,
    pub conditions: Vec<WeatherDescription>,
    pub main_condition: WeatherCondition,
    pub pop_hundredths: i64,
    pub visibility: u32,
    pub clouds: u8,
    pub rain_tenths: Option<i64>,
    pub snow_tenths: Option<i64>,
}

/// Forecast data for one day.
#[derive(Debug, Clone)]
pub struct DailyForecast {
    pub date: i64,
    pub sunrise: i64,
    pub sunset: i64,
    pub temp_morning_tenths: i64,
    pub temp_day_tenths: i64,
    pub temp_evening_tenths: i64,
    pub temp_night_tenths: i64,
    pub temp_min_tenths: i64,
    pub temp_max_tenths: i64,
    pub feels_like_day_tenths: i64,
    pub feels_like_night_tenths: i64,
    pub pressure: u32,
    pub humidity: u8,
    pub wind_speed_tenths: i64,
    pub wind_direction: u16,
    pub conditions: Vec<WeatherDescription>,
    pub main_condition: WeatherCondition,
    pub clouds: u8,
    pub pop_hundredths: i64,
    pub rain_tenths: Option<i64>,
    pub snow_tenths: Option<i64>,
    pub uv_index_tenths: i64,
}

/// A complete weather forecast.
#[derive(Debug, Clone)]
pub struct Forecast {
    pub current: Option<CurrentWeather>,
    pub hourly: Vec<HourlyForecast>,
    pub daily: Vec<DailyForecast>,
    pub timezone_offset: i32,
    pub units: String,
}

/// Air quality data: the 1–5 index and pollutant concentrations in tenths
/// of μg/m³.
#[derive(Debug, Clone)]
pub struct AirQuality {
    pub aqi: u8,
    pub co_tenths: i64,
    pub no_tenths: i64,
    pub no2_tenths: i64,
    pub o3_tenths: i64,
    pub so2_tenths: i64,
    pub pm2_5_tenths: i64,
    pub pm10_tenths: i64,
    pub nh3_tenths: i64,
}

/// A weather alert issued for a region.
#[derive(Debug, Clone)]
pub struct WeatherAlert {
    pub sender: String,
    pub event: String,
    pub start: i64,
    pub end: i64,
    pub description: String,
    pub tags: Vec<String>,
}

/// A fully resolved weather report for one location.
#[derive(Debug, Clone)]
pub struct WeatherReport {
    pub location: Location,
    pub current: Option<CurrentWeather>,
    pub hourly: Vec<HourlyForecast>,
    pub daily: Vec<DailyForecast>,
}

} // verus!
