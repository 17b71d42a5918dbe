use chrono::{TimeZone, Utc};
use weatherman_core::format::ConditionTone;
use weatherman_core::presentation::{
    CurrentView, DayRow, ForecastView, HourRow, TonePalette,
};
use weatherman_core::types::{
    DailyForecast, HourlyForecast, Location, WeatherCondition, WeatherConfig,
    WeatherDescription,
};

/// Tenths of a measurement, as the front-ends convert floats.
fn tenths(x: f64) -> i64 {
    (x * 10.0).round() as i64
}

/// Hundredths of a probability, as the front-ends convert floats.
fn hundredths(p: f64) -> i64 {
    (p * 100.0).round() as i64
}

fn location() -> Location {
    Location {
        name: "Testville".into(),
        country: "Testland".into(),
        country_code: "TL".into(),
        timezone: "UTC".into(),
        region: None,
        state: None,
    }
}

fn hourly(n: usize) -> Vec<HourlyForecast> {
    let base = Utc.with_ymd_and_hms(2024, 1, 1, 0, 0, 0).unwrap().timestamp();
    (0..n)
        .map(|i| HourlyForecast {
            timestamp: base + 3600 * i as i64,
            temperature_tenths: tenths(20.5),
            feels_like_tenths: tenths(19.4),
            humidity: 55,
            pressure: 1013,
            wind_speed_tenths: tenths(3.2),
            wind_direction: 90,
            conditions: vec![WeatherDescription {
                id: 0,
                main: "Clear".into(),
                description: "clear sky".into(),
                icon: "01d".into(),
            }],
            main_condition: WeatherCondition::Clear,
            pop_hundredths: hundredths(0.12),
            visibility: 10000,
            clouds: 0,
            rain_tenths: None,
            snow_tenths: None,
        })
        .collect()
}

fn daily(n: usize) -> Vec<DailyForecast> {
    let base = Utc.with_ymd_and_hms(2024, 1, 1, 12, 0, 0).unwrap().timestamp();
    (0..n)
        .map(|i| DailyForecast {
            date: base + 86400 * i as i64,
            sunrise: base,
            sunset: base,
            temp_morning_tenths: tenths(12.0),
            temp_day_tenths: tenths(22.0),
            temp_evening_tenths: tenths(18.0),
            temp_night_tenths: tenths(10.0),
            temp_min_tenths: tenths(10.4),
            temp_max_tenths: tenths(24.6),
            feels_like_day_tenths: tenths(22.0),
            feels_like_night_tenths: tenths(9.0),
            pressure: 1013,
            humidity: 50,
            wind_speed_tenths: tenths(4.0),
            wind_direction: 180,
            conditions: vec![],
            main_condition: WeatherCondition::Rain,
            clouds: 40,
            pop_hundredths: hundredths(0.6),
            rain_tenths: Some(tenths(1.2)),
            snow_tenths: None,
            uv_index_tenths: tenths(3.0),
        })
        .collect()
}

#[test]
fn current_view_formats_metric() {
    let cfg = WeatherConfig::default();
    let cv = CurrentView::build(&hourly(1)[0], &location(), &cfg);
    assert_eq!(cv.emoji, "☀️");
    assert_eq!(cv.condition, "Clear");
    assert_eq!(cv.tone, ConditionTone::Sunny);
    assert_eq!(cv.location_line, "Testville, Testland");
    assert_eq!(cv.temperature, "20.5°C");
    assert_eq!(cv.feels_like, "19.4°C");
    assert_eq!(cv.humidity, "55%");
    assert_eq!(cv.wind, "3.2 m/s E");
    assert_eq!(cv.local_time, "00:00");
}

#[test]
fn current_view_formats_imperial() {
    let cfg = WeatherConfig {
        units: "imperial".into(),
        ..Default::default()
    };
    let cv = CurrentView::build(&hourly(1)[0], &location(), &cfg);
    assert_eq!(cv.temperature, "20.5°F");
    assert_eq!(cv.wind, "3.2 mph E");
}

#[test]
fn hour_row_formats() {
    let cfg = WeatherConfig::default();
    let hr = HourRow::build(&hourly(1)[0], &location(), &cfg);
    assert_eq!(hr.time, "00:00");
    assert_eq!(hr.temperature, "20.5°C");
    assert_eq!(hr.pop_percent, 12);
    assert_eq!(hr.tone, ConditionTone::Sunny);
}

#[test]
fn day_row_labels_and_hi_lo() {
    let cfg = WeatherConfig::default();
    let days = daily(3);
    let d0 = DayRow::build(0, &days[0], &location(), &cfg);
    let d1 = DayRow::build(1, &days[1], &location(), &cfg);
    let d2 = DayRow::build(2, &days[2], &location(), &cfg);
    assert_eq!(d0.label, "Today");
    assert_eq!(d1.label, "Tomorrow");
    assert_eq!(d2.label, "Wednesday"); // 2024-01-03 is a Wednesday
    assert_eq!(d0.date, "01/01");
    assert_eq!(d0.temp_high_low, "25°C / 10°C"); // rounded
    assert_eq!(d0.pop_percent, 60);
    assert_eq!(d0.tone, ConditionTone::Wet);
}

#[test]
fn forecast_view_caps_and_promotes_current() {
    let cfg = WeatherConfig::default();
    // No explicit current -> first hourly promoted.
    let view = ForecastView::build(
        None::<&HourlyForecast>,
        &hourly(48),
        &daily(10),
        &location(),
        &cfg,
    );
    assert!(view.current.is_some());
    assert_eq!(view.hours.len(), 24); // capped
    assert_eq!(view.days.len(), 7); // capped
}

#[test]
fn forecast_view_empty_has_no_current() {
    let cfg = WeatherConfig::default();
    let view = ForecastView::build(None::<&HourlyForecast>, &[], &[], &location(), &cfg);
    assert!(view.current.is_none());
    assert!(view.hours.is_empty());
    assert!(view.days.is_empty());
}

fn tone_char(tone: ConditionTone) -> char {
    TonePalette {
        sunny: 'S',
        cloudy: 'C',
        wet: 'W',
        storm: 'T',
        snow: 'N',
        fog: 'F',
        neutral: '-',
    }
    .color(tone)
}

#[test]
fn tone_color_fn_macro_maps_all_tones() {
    assert_eq!(tone_char(ConditionTone::Sunny), 'S');
    assert_eq!(tone_char(ConditionTone::Cloudy), 'C');
    assert_eq!(tone_char(ConditionTone::Wet), 'W');
    assert_eq!(tone_char(ConditionTone::Storm), 'T');
    assert_eq!(tone_char(ConditionTone::Snow), 'N');
    assert_eq!(tone_char(ConditionTone::Fog), 'F');
    assert_eq!(tone_char(ConditionTone::Neutral), '-');
}
