use std::time::{SystemTime, UNIX_EPOCH};
use weatherman_core::format::ConditionTone;
use weatherman_core::presentation::ForecastView;
use weatherman_core::tui as view;
use weatherman_core::types::{
    DailyForecast, HourlyForecast, Location, WeatherCondition, WeatherConfig,
    WeatherDescription,
};

fn now() -> i64 {
    SystemTime::now().duration_since(UNIX_EPOCH).unwrap().as_secs() as i64
}

fn location() -> Location {
    Location {
        name: "Testville".into(),
        country: "Testland".into(),
        country_code: "TL".into(),
        timezone: "UTC".into(),
        region: None,
        state: None,
    }
}

fn hourly(n: usize) -> Vec<HourlyForecast> {
    let base = now();
    (0..n)
        .map(|i| HourlyForecast {
            timestamp: base + 3600 * i as i64,
            temperature_tenths: 200,
            feels_like_tenths: 190,
            humidity: 55,
            pressure: 1013,
            wind_speed_tenths: 30,
            wind_direction: 90,
            conditions: vec![WeatherDescription {
                id: 0,
                main: "Clear".into(),
                description: "clear sky".into(),
                icon: "01d".into(),
            }],
            main_condition: WeatherCondition::Clear,
            pop_hundredths: 10,
            visibility: 10000,
            clouds: 0,
            rain_tenths: None,
            snow_tenths: None,
        })
        .collect()
}

fn daily(n: usize) -> Vec<DailyForecast> {
    let base = now();
    (0..n)
        .map(|i| DailyForecast {
            date: base + 86400 * i as i64,
            sunrise: base,
            sunset: base,
            temp_morning_tenths: 120,
            temp_day_tenths: 220,
            temp_evening_tenths: 180,
            temp_night_tenths: 100,
            temp_min_tenths: 100,
            temp_max_tenths: 240,
            feels_like_day_tenths: 220,
            feels_like_night_tenths: 90,
            pressure: 1013,
            humidity: 50,
            wind_speed_tenths: 40,
            wind_direction: 180,
            conditions: vec![],
            main_condition: WeatherCondition::Rain,
            clouds: 40,
            pop_hundredths: 60,
            rain_tenths: Some(12),
            snow_tenths: None,
            uv_index_tenths: 30,
        })
        .collect()
}

fn build_view(nh: usize, nd: usize) -> ForecastView {
    ForecastView::build(
        None::<&HourlyForecast>,
        &hourly(nh),
        &daily(nd),
        &location(),
        &WeatherConfig::default(),
    )
}

#[test]
fn tone_color_is_stable_and_distinct() {
    assert_eq!(
        view::tone_color(ConditionTone::Sunny),
        view::tone_color(ConditionTone::Sunny)
    );
    assert_ne!(
        view::tone_color(ConditionTone::Sunny),
        view::tone_color(ConditionTone::Wet)
    );
}

#[test]
fn tone_color_is_stable() {
    // Same condition should always map to the same colour.
    assert_eq!(
        view::condition_color(&WeatherCondition::Clear),
        view::condition_color(&WeatherCondition::Clear)
    );
    assert_ne!(
        view::condition_color(&WeatherCondition::Clear),
        view::condition_color(&WeatherCondition::Rain)
    );
}

#[test]
fn current_lines_has_header_and_data() {
    let v = build_view(3, 0);
    let lines = view::current_lines(v.current.as_ref());
    assert_eq!(lines.len(), 3); // header + two info lines
}

#[test]
fn current_lines_handles_missing() {
    let lines = view::current_lines(None);
    assert_eq!(lines.len(), 2); // header + "no data"
}

#[test]
fn hourly_lines_caps_at_24() {
    let v = build_view(48, 0);
    let lines = view::hourly_lines(&v.hours);
    assert_eq!(lines.len(), 25); // header + 24 rows
}

#[test]
fn daily_lines_caps_at_7() {
    let v = build_view(0, 10);
    let lines = view::daily_lines(&v.days);
    assert_eq!(lines.len(), 8); // header + 7 rows
}

#[test]
fn view_test_page_line_count_sums_sections() {
    let v = build_view(24, 7);
    // current(3) + blank(1) + hourly(25) + blank(1) + daily(8) = 38
    assert_eq!(view::page_line_count(&v), 38);
}

#[test]
fn current_section_has_header_and_data() {
    // The current section of three forecast hours promotes the first one.
    let v = build_view(3, 0);
    assert_eq!(view::current_lines(v.current.as_ref()).len(), 3);
}

#[test]
fn current_section_handles_empty() {
    // Without hours there is nothing to promote: header + "no data".
    let v = build_view(0, 0);
    assert!(v.current.is_none());
    assert_eq!(view::current_lines(v.current.as_ref()).len(), 2);
}

#[test]
fn hourly_section_caps_at_24() {
    let v = build_view(48, 0);
    assert_eq!(view::hourly_lines(&v.hours).len(), 25); // header + 24 rows
}

#[test]
fn daily_section_caps_at_7() {
    let v = build_view(0, 10);
    assert_eq!(view::daily_lines(&v.days).len(), 8); // header + 7 rows
}

#[test]
fn hourly_line_separates_rain_chance_and_condition() {
    let v = build_view(1, 0);
    let lines = view::hourly_lines(&v.hours);
    let texts: Vec<&str> = lines[1].spans.iter().map(|s| s.text.as_str()).collect();
    assert_eq!(texts.len(), 7);
    assert_eq!(texts[3], "   ");
    assert_eq!(texts[4], "💧  10%");
    assert_eq!(texts[5], "   ");
    assert_eq!(texts[6], "Clear");
}
