use chrono::{TimeZone, Utc};
use weatherman_core::advice::{
    clothing_advice, condition_advice, day_activities, day_outlook, day_uv_advice, outlook_lines,
    recommendations, time_of_day, uv_advice, wind_advice, ActivityAdvice, DayOutlook, TimeOfDay,
};
use weatherman_core::format::{format_fixed0, format_fixed1};
use weatherman_core::gui::{App, Body, Effect, Loaded, Message, Status};
use weatherman_core::location::{
    ip_services, location_from_address, location_from_ip_fields, search_hit_name, search_url,
    timezone_or_utc, AddressFields, IpFields,
};
use weatherman_core::persistence::{settings_or_default, AppSettings};
use weatherman_core::presentation::ForecastView;
use weatherman_core::report::{
    checked_hour_conditions, day_emphasis, day_name, describe, format_hour_only, format_weekday, get_temp_range_bar,
    get_wind_direction_arrow, hour_conditions, menu_choice, menu_items, precip_chance, precip_text, rain_icon,
    report_config, shouted_day, temp_indicator, to_title_case, trend_label, units_choice,
    uv_display, uv_level, wind_info, Emphasis, Ink, TempIndicator, UvLevel,
};
use weatherman_core::tabs::{calendar_lines, handle_tab_key, TabKey, TabStep, TuiTab};
use weatherman_core::text::{eq_ignore_ascii_case, trim};
use weatherman_core::time::{
    convert_to_local, format_date_short, format_local_time, is_daytime, timezone_offset_hours,
};
use weatherman_core::tui::{build_page, handle_page_key, help_line, title_line, PageKey, PageStep};
use weatherman_core::types::{
    CurrentWeather, DailyForecast, DetailLevel, Location, ParseError, WeatherCondition,
    WeatherConfig, WeatherDescription,
};

fn ts(y: i32, mo: u32, d: u32, h: u32, mi: u32) -> i64 {
    Utc.with_ymd_and_hms(y, mo, d, h, mi, 0).unwrap().timestamp()
}

fn location(tz: &str) -> Location {
    Location {
        name: "Berlin".into(),
        country: "Germany".into(),
        country_code: "DE".into(),
        timezone: tz.into(),
        region: None,
        state: None,
    }
}

fn day(date: i64, condition: WeatherCondition, min: i64, max: i64, pop: i64, uv: i64) -> DailyForecast {
    DailyForecast {
        date,
        sunrise: date,
        sunset: date,
        temp_morning_tenths: 0,
        temp_day_tenths: 0,
        temp_evening_tenths: 0,
        temp_night_tenths: 0,
        temp_min_tenths: min,
        temp_max_tenths: max,
        feels_like_day_tenths: 0,
        feels_like_night_tenths: 0,
        pressure: 1013,
        humidity: 50,
        wind_speed_tenths: 40,
        wind_direction: 180,
        conditions: vec![],
        main_condition: condition,
        clouds: 0,
        pop_hundredths: pop,
        rain_tenths: None,
        snow_tenths: None,
        uv_index_tenths: uv,
    }
}

fn current(condition: WeatherCondition, temp: i64, feels: i64, wind: i64, uv: i64) -> CurrentWeather {
    CurrentWeather {
        timestamp: ts(2024, 1, 1, 12, 0),
        temperature_tenths: temp,
        feels_like_tenths: feels,
        humidity: 40,
        pressure: 1010,
        wind_speed_tenths: wind,
        wind_direction: 0,
        conditions: vec![],
        main_condition: condition,
        visibility: 10000,
        clouds: 0,
        uv_index_tenths: uv,
        sunrise: 0,
        sunset: 0,
        rain_last_hour_tenths: None,
        snow_last_hour_tenths: None,
        air_quality_index: None,
    }
}

#[test]
fn condition_parsing_is_case_insensitive() {
    assert_eq!(WeatherCondition::from_str("Rain"), WeatherCondition::Rain);
    assert_eq!(WeatherCondition::from_str("THUNDERSTORM"), WeatherCondition::Thunderstorm);
    assert_eq!(WeatherCondition::from_str("smoke"), WeatherCondition::Smoke);
    assert_eq!(WeatherCondition::from_str("hail"), WeatherCondition::Unknown);
    assert_eq!(WeatherCondition::from_str(""), WeatherCondition::Unknown);
}

#[test]
fn condition_names_and_emoji() {
    assert_eq!(WeatherCondition::Clouds.to_string(), "Cloudy");
    assert_eq!(WeatherCondition::Snow.name(), "Snowy");
    assert_eq!(WeatherCondition::Tornado.get_emoji(), "🌪️");
    assert_eq!(WeatherCondition::Haze.get_emoji(), "🌫️");
}

#[test]
fn detail_levels_parse_their_names() {
    for d in [DetailLevel::Basic, DetailLevel::Standard, DetailLevel::Detailed, DetailLevel::Debug] {
        assert_eq!(DetailLevel::from_str(&d.to_string()), Ok(d));
    }
    assert_eq!(DetailLevel::from_str("basic"), Err(ParseError::VariantNotFound));
    assert!(DetailLevel::Basic < DetailLevel::Debug);
}

#[test]
fn defaults() {
    let cfg = WeatherConfig::default();
    assert_eq!(cfg.units, "metric");
    assert!(cfg.location.is_none());
    assert!(cfg.animation_enabled);
    assert_eq!(cfg.detail_level, DetailLevel::Standard);
    let loc = Location::default();
    assert_eq!(loc.name, "Unknown");
    assert_eq!(loc.country_code, "UN");
    assert_eq!(loc.timezone, "UTC");
}

#[test]
fn fixed_point_matches_float_formatting() {
    for t in -300i64..=300 {
        let x = t as f64 / 10.0;
        assert_eq!(format_fixed1(t), format!("{:.1}", x), "tenths {}", t);
        assert_eq!(format_fixed0(t), format!("{:.0}", x), "tenths {}", t);
    }
}

#[test]
fn local_time_uses_timezone_table() {
    let t = ts(2024, 1, 1, 12, 5);
    assert_eq!(timezone_offset_hours("Asia/Tokyo"), 9);
    assert_eq!(timezone_offset_hours("America/New_York"), -5);
    assert_eq!(timezone_offset_hours("Mars/Olympus"), 0);
    assert_eq!(convert_to_local(t, "CET"), t + 3600);
    assert_eq!(format_local_time(t, "Asia/Tokyo"), "21:05");
    assert_eq!(format_local_time(t, "PST"), "04:05");
    assert_eq!(format_date_short(ts(2024, 12, 31, 20, 0), "JST"), "1/1");
    assert_eq!(format_date_short(ts(2024, 3, 9, 8, 0), "UTC"), "3/9");
    assert!(is_daytime(6));
    assert!(is_daytime(17));
    assert!(!is_daytime(18));
    assert!(!is_daytime(5));
}

#[test]
fn trim_and_case_insensitive_equality() {
    assert_eq!(trim("  Berlin \t\n"), "Berlin");
    assert_eq!(trim("\u{a0}Paris\u{3000}"), "Paris");
    assert_eq!(trim("   "), "");
    assert!(eq_ignore_ascii_case("BERLIN", "berlin"));
    assert!(!eq_ignore_ascii_case("Zürich", "ZÜRICH"));
    assert!(!eq_ignore_ascii_case("Berlin", "Berlin "));
}

#[test]
fn settings_add_remove_laws() {
    let mut s = AppSettings::default();
    assert!(s.add_location("  Tokyo  "));
    assert_eq!(s.locations, vec!["Tokyo".to_string()]);
    // Adding twice adds once.
    assert!(!s.add_location("Tokyo"));
    assert_eq!(s.locations.len(), 1);
    // Removing what was added restores the list.
    assert!(s.add_location("Oslo"));
    s.remove_location(1);
    assert_eq!(s.locations, vec!["Tokyo".to_string()]);
    assert_eq!(s.units, "metric");
    let parsed = AppSettings { units: "imperial".into(), locations: vec!["Rome".into()] };
    assert_eq!(settings_or_default(Some(parsed)).units, "imperial");
    assert_eq!(settings_or_default(None).units, "metric");
}

#[test]
fn gui_update_cycle() {
    let (mut app, effect) = App::new();
    assert_eq!(app.status, Status::Loading);
    assert_eq!(app.title(), "Weather Man");
    assert_eq!(app.body(), Body::Loading);
    match effect {
        Effect::Fetch(req) => assert!(req.query.is_none()),
        Effect::Nothing => panic!("the first update must fetch"),
    }
    assert!(matches!(app.update(Message::QueryChanged("  Oslo ".into())), Effect::Nothing));
    assert_eq!(app.current_query(), Some("Oslo".to_string()));
    match app.update(Message::Search) {
        Effect::Fetch(req) => {
            assert_eq!(req.query, Some("Oslo".to_string()));
            assert_eq!(req.config.units, "metric");
        }
        Effect::Nothing => panic!("search must fetch"),
    }
    let view = ForecastView { current: None, hours: vec![], days: vec![] };
    let loaded = Loaded { location_name: "Oslo".into(), view };
    assert!(matches!(app.update(Message::Fetched(Ok(Box::new(loaded)))), Effect::Nothing));
    assert_eq!(app.status, Status::Ready);
    assert_eq!(app.title(), "Weather Man — Oslo");
    assert_eq!(app.body(), Body::Forecast);
    assert_eq!(app.units_label(), "°C");
    app.update(Message::QueryChanged("   ".into()));
    match app.update(Message::ToggleUnits) {
        Effect::Fetch(req) => {
            assert_eq!(req.config.units, "imperial");
            // Blank search: refetch the loaded location.
            assert_eq!(req.query, Some("Oslo".to_string()));
        }
        Effect::Nothing => panic!("toggling units must fetch"),
    }
    assert_eq!(app.units_label(), "°F");
    app.update(Message::ToggleUnits);
    assert_eq!(app.config.units, "metric");
    app.update(Message::Fetched(Err("offline".into())));
    assert_eq!(app.status, Status::Error("offline".into()));
    assert_eq!(app.body(), Body::Error);
}

#[test]
fn page_keys_scroll_within_page() {
    assert_eq!(handle_page_key(0, 38, PageKey::Down), PageStep::Scroll(1));
    assert_eq!(handle_page_key(38, 38, PageKey::Down), PageStep::Scroll(38));
    assert_eq!(handle_page_key(35, 38, PageKey::PageDown), PageStep::Scroll(38));
    assert_eq!(handle_page_key(5, 38, PageKey::PageUp), PageStep::Scroll(0));
    assert_eq!(handle_page_key(0, 38, PageKey::Up), PageStep::Scroll(0));
    assert_eq!(handle_page_key(7, 38, PageKey::Bottom), PageStep::Scroll(38));
    assert_eq!(handle_page_key(7, 38, PageKey::Top), PageStep::Scroll(0));
    assert_eq!(handle_page_key(7, 38, PageKey::Other), PageStep::Scroll(7));
    assert_eq!(handle_page_key(7, 38, PageKey::Quit), PageStep::Quit);
    assert_eq!(handle_page_key(65535, 65535, PageKey::Down), PageStep::Scroll(65535));
}

#[test]
fn tab_keys_cycle() {
    let t = TuiTab::CurrentWeather;
    assert_eq!(t.next().next().next(), t);
    assert_eq!(t.prev(), TuiTab::Calendar);
    assert_eq!(t.next().prev(), t);
    assert_eq!(TuiTab::Calendar.to_string(), "Weather Calendar");
    assert_eq!(TuiTab::WeatherForecast.index(), 1);
    assert_eq!(handle_tab_key(t, TabKey::Third), TabStep::Show(TuiTab::Calendar));
    assert_eq!(handle_tab_key(t, TabKey::Next), TabStep::Show(TuiTab::WeatherForecast));
    assert_eq!(handle_tab_key(t, TabKey::Quit), TabStep::Quit);
}

#[test]
fn page_title_and_help() {
    let l = title_line(&location("UTC"), &WeatherConfig::default());
    let texts: Vec<&str> = l.spans.iter().map(|s| s.text.as_str()).collect();
    assert_eq!(texts, vec!["Weather Man - Berlin", "  ", "[Germany]", "  ", "(°C)"]);
    assert_eq!(help_line().spans.len(), 9);
    let view = ForecastView { current: None, hours: vec![], days: vec![] };
    // Empty view: 2 + 1 + 2 + 1 + 2 lines.
    assert_eq!(build_page(&view).len(), 8);
}

#[test]
fn calendar_tab_lines() {
    let d = day(ts(2024, 1, 3, 12, 0), WeatherCondition::Drizzle, -35, 104, 60, 0);
    let lines = calendar_lines(&[d], &location("UTC"));
    assert_eq!(lines.len(), 5);
    let texts: Vec<&str> = lines[2].spans.iter().map(|s| s.text.as_str()).collect();
    assert_eq!(
        texts,
        vec!["Wednesday", " ", "01/03", "  ", "🌦️", " ", "Drizzle", "  ", "-3°-10°C", "  ", "60%"]
    );
}

#[test]
fn location_decisions() {
    assert_eq!(
        search_url("New York"),
        "https://nominatim.openstreetmap.org/search?q=New%20York&format=json&limit=1"
    );
    assert_eq!(
        search_url("Zürich"),
        "https://nominatim.openstreetmap.org/search?q=Z%C3%BCrich&format=json&limit=1"
    );
    assert_eq!(ip_services().len(), 4);
    let ip = IpFields {
        city: None,
        region_name: Some("Bavaria".into()),
        country_name: None,
        country: Some("Germany".into()),
        country_code: None,
        country_code_camel: Some("de".into()),
        region: None,
        region_name_camel: Some("BY".into()),
        timezone: None,
    };
    let l = location_from_ip_fields(&ip);
    assert_eq!(l.name, "Bavaria");
    assert_eq!(l.country, "Germany");
    assert_eq!(l.country_code, "DE");
    assert_eq!(l.region, Some("BY".to_string()));
    assert_eq!(l.timezone, "UTC");
    let addr = AddressFields {
        city: None,
        town: None,
        village: Some("Hallstatt".into()),
        hamlet: Some("Lahn".into()),
        country: None,
        country_code: Some("at".into()),
        state: Some("Upper Austria".into()),
        region: None,
    };
    let l = location_from_address(&addr, None, "Europe/Vienna".into());
    assert_eq!(l.name, "Hallstatt");
    assert_eq!(l.country, "Unknown");
    assert_eq!(l.country_code, "AT");
    assert_eq!(l.state, Some("Upper Austria".to_string()));
    let l = location_from_address(&addr, Some("Hallstatt, Austria".into()), "UTC".into());
    assert_eq!(l.name, "Hallstatt, Austria");
    assert_eq!(timezone_or_utc(None), "UTC");
    assert_eq!(search_hit_name(None), "Unknown");
}

#[test]
fn report_texts() {
    assert_eq!(to_title_case("light rain"), "Light Rain");
    assert_eq!(to_title_case("heavy-intensity shower rain"), "Heavy-Intensity Shower Rain");
    let t = ts(2024, 1, 1, 0, 30);
    assert_eq!(format_hour_only(t, "UTC"), "12 AM");
    assert_eq!(format_hour_only(t, "JST"), "9 AM");
    assert_eq!(format_hour_only(t, "Australia/Sydney"), "10 AM");
    assert_eq!(format_hour_only(ts(2024, 1, 1, 12, 0), "UTC"), "12 PM");
    assert_eq!(format_hour_only(ts(2024, 1, 1, 13, 0), "UTC"), "1 PM");
    assert_eq!(format_weekday(t), "Monday");
    assert_eq!(day_name(2, ts(2024, 1, 3, 0, 0)), "Wednesday");
    assert_eq!(shouted_day(2, ts(2024, 1, 3, 0, 0)), "WEDNESDAY");
    assert_eq!(shouted_day(1, 0), "TOMORROW");
    assert_eq!(trend_label(3, ts(2024, 2, 29, 12, 0)), "Thu 2/29");
    assert_eq!(get_wind_direction_arrow(0), "↓");
    assert_eq!(get_wind_direction_arrow(360), "↓");
    assert_eq!(get_wind_direction_arrow(90), "←");
    assert_eq!(get_wind_direction_arrow(400), "•");
    assert_eq!(uv_level(25), UvLevel::Low);
    assert_eq!(uv_level(-5), UvLevel::Low);
    assert_eq!(uv_level(79), UvLevel::High);
    assert_eq!(uv_level(110), UvLevel::Extreme);
    assert_eq!(uv_display(45), ("4.5 (Moderate)".to_string(), Ink::Yellow));
    assert_eq!(precip_text(0), "0%");
    assert_eq!(precip_text(37), "37%");
    assert_eq!(rain_icon(20), "🌂");
    assert_eq!(rain_icon(95), "⛈️");
    assert_eq!(wind_info(0, 90), "Calm");
    assert_eq!(wind_info(35, 90), "3.5 ←");
    assert_eq!(temp_indicator(300).0, TempIndicator::Hot);
    assert_eq!(temp_indicator(50).1, "❄️ Cold ");
    assert_eq!(get_temp_range_bar(-20, -5, false).1, Ink::BrightBlue);
    assert_eq!(get_temp_range_bar(210, 290, false).1, Ink::Yellow);
    assert_eq!(get_temp_range_bar(100, 210, false).1, Ink::Green);
    assert_eq!(day_emphasis(&WeatherCondition::Thunderstorm), Emphasis::Precipitation);
    assert_eq!(day_emphasis(&WeatherCondition::Clear), Emphasis::High);
    let descs = vec![WeatherDescription {
        id: 0,
        main: "Clear".into(),
        description: "clear sky".into(),
        icon: "01d".into(),
    }];
    assert_eq!(hour_conditions(&descs, &WeatherCondition::Clear), "Clear Sk");
    assert_eq!(hour_conditions(&vec![], &WeatherCondition::Rain), "Rainy");
    assert_eq!(describe(&descs, &WeatherCondition::Clear), "Clear Sky");
    assert_eq!(menu_items(false).len(), 7);
    assert_eq!(menu_items(true)[4], "Interactive Charts");
    assert_eq!(menu_choice(Some(4), true), "charts");
    assert_eq!(menu_choice(Some(4), false), "change_location");
    assert_eq!(menu_choice(None, true), "exit");
    assert_eq!(units_choice(Some(2)), "standard");
    assert_eq!(units_choice(None), "metric");
    assert_eq!(report_config(false, true).units, "metric");
}

#[test]
fn daily_advice() {
    let d = ts(2024, 1, 1, 12, 0);
    assert_eq!(day_outlook(&day(d, WeatherCondition::Rain, 50, 100, 80, 0)), DayOutlook::HeavyRain);
    assert_eq!(day_outlook(&day(d, WeatherCondition::Rain, 50, 100, 70, 0)), DayOutlook::LightRain);
    assert_eq!(day_outlook(&day(d, WeatherCondition::Clear, 200, 310, 0, 0)), DayOutlook::ClearWarm);
    assert_eq!(day_outlook(&day(d, WeatherCondition::Clear, 50, 140, 0, 0)), DayOutlook::ClearCool);
    assert_eq!(day_outlook(&day(d, WeatherCondition::Clear, 100, 250, 0, 0)), DayOutlook::ClearPleasant);
    assert_eq!(day_outlook(&day(d, WeatherCondition::Mist, 0, 0, 0, 0)), DayOutlook::Foggy);
    assert_eq!(day_outlook(&day(d, WeatherCondition::Dust, 0, 0, 0, 0)), DayOutlook::Unremarkable);
    assert_eq!(outlook_lines(DayOutlook::Foggy).len(), 3);
    assert_eq!(outlook_lines(DayOutlook::Unremarkable)[0].icon, "📋");
    assert!(day_uv_advice(71).unwrap().text.starts_with("Very high UV index"));
    assert!(day_uv_advice(50).is_none());
    let a = day_activities(&day(d, WeatherCondition::Thunderstorm, 0, 0, 0, 0));
    assert_eq!(a.0, ActivityAdvice::Indoor);
    assert_eq!(a.2, "• Outdoor: 👎 Not recommended");
    assert_eq!(day_activities(&day(d, WeatherCondition::Clear, 240, 270, 0, 0)).0, ActivityAdvice::HotOutdoor);
}

#[test]
fn current_recommendations() {
    assert_eq!(time_of_day(4), TimeOfDay::Night);
    assert_eq!(time_of_day(5), TimeOfDay::Morning);
    assert_eq!(time_of_day(16), TimeOfDay::Afternoon);
    assert_eq!(time_of_day(20), TimeOfDay::Evening);
    assert_eq!(time_of_day(21), TimeOfDay::Night);
    assert_eq!(
        clothing_advice(-10, false, TimeOfDay::Morning).text,
        "Very cold morning! Wear heavy winter clothing, hat, gloves and scarf."
    );
    assert_eq!(clothing_advice(300, false, TimeOfDay::Evening).icon, "🌡️");
    assert!(uv_advice(90, TimeOfDay::Night).is_none());
    assert_eq!(uv_advice(30, TimeOfDay::Afternoon).unwrap().ink, Ink::Yellow);
    assert_eq!(
        condition_advice(WeatherCondition::Clear, TimeOfDay::Afternoon, 260, 250).unwrap().text,
        "Clear and warm afternoon. Great for outdoor activities!"
    );
    assert!(condition_advice(WeatherCondition::Ash, TimeOfDay::Afternoon, 0, 250).is_none());
    assert!(wind_advice(100, TimeOfDay::Morning).is_none());
    assert!(wind_advice(101, TimeOfDay::Morning).is_some());
    let w = current(WeatherCondition::Clouds, 180, 170, 120, 60);
    let r = recommendations(&w, 14, false);
    let texts: Vec<&str> = r.iter().map(|a| a.text.as_str()).collect();
    assert_eq!(
        texts,
        vec![
            "Cool afternoon weather. A light jacket or sweater recommended.",
            "High UV levels! Wear sunscreen, hat and sunglasses.",
            "Cloudy afternoon conditions. Good for outdoor activities without direct sun.",
            "Strong winds this afternoon. Secure loose objects and be careful outdoors.",
        ]
    );
    let night = recommendations(&current(WeatherCondition::Dust, 180, 170, 20, 60), 23, false);
    assert_eq!(night.len(), 1);
}

#[test]
fn checked_hour_conditions_refuses_split_characters() {
    let desc = |d: &str| {
        vec![WeatherDescription { id: 0, main: "x".into(), description: d.into(), icon: "01d".into() }]
    };
    assert_eq!(
        checked_hour_conditions(&desc("clear sky"), &WeatherCondition::Clear),
        Some("Clear Sk".to_string())
    );
    // The eighth byte falls inside "é": a direct cut would panic.
    assert_eq!(checked_hour_conditions(&desc("aaaaaaaé"), &WeatherCondition::Clear), None);
    assert_eq!(
        checked_hour_conditions(&vec![], &WeatherCondition::Snow),
        Some("Snowy".to_string())
    );
}

#[test]
fn precipitation_chance_only_when_positive() {
    assert_eq!(precip_chance(0), None);
    assert_eq!(precip_chance(-5), None);
    assert_eq!(precip_chance(37), Some((37, "💧")));
    assert_eq!(precip_chance(95), Some((95, "⛈️")));
}

#[test]
fn parsing_ignores_ascii_case() {
    for s in ["RaIn", "FOG", "Tornado", "cloudy", " rain"] {
        assert_eq!(WeatherCondition::from_str(s), WeatherCondition::from_str(&s.to_lowercase()));
    }
    assert_eq!(WeatherCondition::from_str("Cloudy"), WeatherCondition::Unknown);
    assert_eq!(WeatherCondition::from_str(" rain"), WeatherCondition::Unknown);
}
