//! UI-agnostic presentation view model.
//!
//! These types pre-compute every display string (temperatures, wind, times,
//! probabilities, labels) and the semantic tone of each element, so that a
//! front-end only maps already formatted data onto its own widgets.

use vstd::prelude::*;
use crate::format::{condition_tone, day_label, day_label_spec, fixed0, fixed1, pop_percent,
    pop_percent_spec, push_fixed0, push_fixed1, sector_label, compass_sector, temp_unit,
    temp_unit_label, tone_of, wind_direction_label, wind_unit, wind_unit_label, ConditionTone};
use crate::text::{dec, dec2, push_char, push_dec, push_dec2, push_str, string_of};
use crate::time::{convert_to_local, hh_mm, hour, hour_of, local_instant, month_day_padded,
    push_hh_mm, push_month_day_padded, valid_instant, weekday_name, weekday_name_of, weekday_of};
use crate::types::{display_name, emoji_of, CurrentWeather, DailyForecast, HourlyForecast,
    Location, WeatherCondition, WeatherConfig};

verus! {

/// Maximum number of hourly rows a `ForecastView` exposes.
pub const HOURLY_LIMIT: usize = 24;

/// Maximum number of daily rows a `ForecastView` exposes.
pub const DAILY_LIMIT: usize = 7;

/// The readings a "current conditions" block is built from.
#[derive(Debug, Clone, Copy, PartialEq, Eq, Structural)]
pub struct Observation {
    pub observed_at: i64,
    pub temperature_tenths: i64,
    pub feels_like_tenths: i64,
    pub humidity: u8,
    pub wind_speed_tenths: i64,
    pub wind_direction: u16,
    pub condition: WeatherCondition,
}

/// Anything that can stand for the current conditions: current weather,
/// or an hourly forecast entry promoted to it.
pub trait CurrentConditions {
    /// The readings of this value.
    spec fn observation(&self) -> Observation;

    /// Reads the readings of this value.
    fn observe(&self) -> (r: Observation)
        ensures
            r == self.observation(),
    ;
}

impl CurrentConditions for CurrentWeather {
    open spec fn observation(&self) -> Observation {
        Observation {
            observed_at: self.timestamp,
            temperature_tenths: self.temperature_tenths,
            feels_like_tenths: self.feels_like_tenths,
            humidity: self.humidity,
            wind_speed_tenths: self.wind_speed_tenths,
            wind_direction: self.wind_direction,
            condition: self.main_condition,
        }
    }

    fn observe(&self) -> (r: Observation) {
        Observation {
            observed_at: self.timestamp,
            temperature_tenths: self.temperature_tenths,
            feels_like_tenths: self.feels_like_tenths,
            humidity: self.humidity,
            wind_speed_tenths: self.wind_speed_tenths,
            wind_direction: self.wind_direction,
            condition: self.main_condition,
        }
    }
}

impl CurrentConditions for HourlyForecast {
    open spec fn observation(&self) -> Observation {
        Observation {
            observed_at: self.timestamp,
            temperature_tenths: self.temperature_tenths,
            feels_like_tenths: self.feels_like_tenths,
            humidity: self.humidity,
            wind_speed_tenths: self.wind_speed_tenths,
            wind_direction: self.wind_direction,
            condition: self.main_condition,
        }
    }

    fn observe(&self) -> (r: Observation) {
        Observation {
            observed_at: self.timestamp,
            temperature_tenths: self.temperature_tenths,
            feels_like_tenths: self.feels_like_tenths,
            humidity: self.humidity,
            wind_speed_tenths: self.wind_speed_tenths,
            wind_direction: self.wind_direction,
            condition: self.main_condition,
        }
    }
}

/// Pre-formatted "current conditions" block.
#[derive(Debug, Clone)]
pub struct CurrentView {
    pub emoji: &'static str,
    pub condition: String,
    pub tone: ConditionTone,
    pub location_line: String,
    pub temperature: String,
    pub feels_like: String,
    pub humidity: String,
    pub wind: String,
    pub local_time: String,
}

/// Pre-formatted single-hour row.
#[derive(Debug, Clone)]
pub struct HourRow {
    pub time: String,
    pub emoji: &'static str,
    pub tone: ConditionTone,
    pub condition: String,
    pub temperature: String,
    pub pop_percent: u8,
}

/// Pre-formatted single-day row.
#[derive(Debug, Clone)]
pub struct DayRow {
    pub label: String,
    pub date: String,
    pub emoji: &'static str,
    pub tone: ConditionTone,
    pub condition: String,
    pub temp_high_low: String,
    pub pop_percent: u8,
}

/// The full, ready-to-render forecast for one location.
#[derive(Debug, Clone)]
pub struct ForecastView {
    pub current: Option<CurrentView>,
    pub hours: Vec<HourRow>,
    pub days: Vec<DayRow>,
}

/// `v` is the current-conditions block of observation `o` at `loc` in `units`.
pub open spec fn current_view_of(v: CurrentView, o: Observation, loc: Location, units: Seq<char>) -> bool {
    let local = local_instant(o.observed_at as int, loc.timezone@);
    &&& v.emoji@ == emoji_of(o.condition)
    &&& v.condition@ == display_name(o.condition)
    &&& v.tone == tone_of(o.condition)
    &&& v.location_line@ == loc.name@ + ", "@ + loc.country@
    &&& v.temperature@ == fixed1(o.temperature_tenths as int) + temp_unit(units)
    &&& v.feels_like@ == fixed1(o.feels_like_tenths as int) + temp_unit(units)
    &&& v.humidity@ == dec(o.humidity as nat) + "%"@
    &&& v.wind@ == fixed1(o.wind_speed_tenths as int) + " "@ + wind_unit(units) + " "@
        + sector_label(compass_sector(o.wind_direction as int % 360))
    &&& v.local_time@ == hh_mm(local)
}

/// `r` is the row of hourly entry `h` at `loc` in `units`.
pub open spec fn hour_row_of(r: HourRow, h: HourlyForecast, loc: Location, units: Seq<char>) -> bool {
    let local = local_instant(h.timestamp as int, loc.timezone@);
    &&& r.time@ == dec2(hour_of(local) as nat) + ":00"@
    &&& r.emoji@ == emoji_of(h.main_condition)
    &&& r.tone == tone_of(h.main_condition)
    &&& r.condition@ == display_name(h.main_condition)
    &&& r.temperature@ == fixed1(h.temperature_tenths as int) + temp_unit(units)
    &&& r.pop_percent == pop_percent_spec(h.pop_hundredths as int)
}

/// `r` is the row of daily entry `d` at position `index`, at `loc` in `units`.
pub open spec fn day_row_of(r: DayRow, index: int, d: DailyForecast, loc: Location, units: Seq<char>) -> bool {
    let local = local_instant(d.date as int, loc.timezone@);
    &&& r.label@ == day_label_spec(index, weekday_name_of(weekday_of(local)))
    &&& r.date@ == month_day_padded(local)
    &&& r.emoji@ == emoji_of(d.main_condition)
    &&& r.tone == tone_of(d.main_condition)
    &&& r.condition@ == display_name(d.main_condition)
    &&& r.temp_high_low@ == fixed0(d.temp_max_tenths as int) + temp_unit(units) + " / "@
        + fixed0(d.temp_min_tenths as int) + temp_unit(units)
    &&& r.pop_percent == pop_percent_spec(d.pop_hundredths as int)
}

/// Every instant of the hourly entries is within the accepted range.
pub open spec fn hourly_valid(hourly: Seq<HourlyForecast>) -> bool {
    forall|i: int| 0 <= i < hourly.len() ==> valid_instant((#[trigger] hourly[i]).timestamp as int)
}

/// Every date of the daily entries is within the accepted range.
pub open spec fn daily_valid(daily: Seq<DailyForecast>) -> bool {
    forall|i: int| 0 <= i < daily.len() ==> valid_instant((#[trigger] daily[i]).date as int)
}

impl CurrentView {
    /// Builds the block from anything that stands for the current conditions.
    pub fn build<C: CurrentConditions>(current: &C, location: &Location, config: &WeatherConfig) -> (r: Self)
        requires
            valid_instant(current.observation().observed_at as int),
        ensures
            current_view_of(r, current.observation(), *location, config.units@),
    {
        let o = current.observe();
        let t_unit = temp_unit_label(config.units.as_str());
        let w_unit = wind_unit_label(config.units.as_str());
        let local = convert_to_local(o.observed_at, location.timezone.as_str());

        let mut location_line = string_of(location.name.as_str());
        push_str(&mut location_line, ", ");
        push_str(&mut location_line, location.country.as_str());

        let mut temperature = String::new();
        push_fixed1(&mut temperature, o.temperature_tenths);
        push_str(&mut temperature, t_unit);

        let mut feels_like = String::new();
        push_fixed1(&mut feels_like, o.feels_like_tenths);
        push_str(&mut feels_like, t_unit);

        let mut humidity = String::new();
        push_dec(&mut humidity, o.humidity as u64);
        push_str(&mut humidity, "%");

        let mut wind = String::new();
        push_fixed1(&mut wind, o.wind_speed_tenths);
        push_str(&mut wind, " ");
        push_str(&mut wind, w_unit);
        push_str(&mut wind, " ");
        push_str(&mut wind, wind_direction_label(o.wind_direction));

        let mut local_time = String::new();
        push_hh_mm(&mut local_time, local);

        let r = CurrentView {
            emoji: o.condition.get_emoji(),
            condition: o.condition.to_string(),
            tone: condition_tone(&o.condition),
            location_line,
            temperature,
            feels_like,
            humidity,
            wind,
            local_time,
        };
        assert(r.location_line@ =~= location.name@ + ", "@ + location.country@);
        assert(r.temperature@ =~= fixed1(o.temperature_tenths as int) + temp_unit(config.units@));
        assert(r.feels_like@ =~= fixed1(o.feels_like_tenths as int) + temp_unit(config.units@));
        assert(r.humidity@ =~= dec(o.humidity as nat) + "%"@);
        assert(r.wind@ =~= fixed1(o.wind_speed_tenths as int) + " "@ + wind_unit(config.units@) + " "@
            + sector_label(compass_sector(o.wind_direction as int % 360)));
        assert(r.local_time@ =~= hh_mm(local as int));
        r
    }
}

impl HourRow {
    /// Builds a row from an hourly forecast entry.
    pub fn build(hour_entry: &HourlyForecast, location: &Location, config: &WeatherConfig) -> (r: Self)
        requires
            valid_instant(hour_entry.timestamp as int),
        ensures
            hour_row_of(r, *hour_entry, *location, config.units@),
    {
        let t_unit = temp_unit_label(config.units.as_str());
        let local = convert_to_local(hour_entry.timestamp, location.timezone.as_str());

        let mut time = String::new();
        push_dec2(&mut time, hour(local) as u64);
        push_str(&mut time, ":00");

        let mut temperature = String::new();
        push_fixed1(&mut temperature, hour_entry.temperature_tenths);
        push_str(&mut temperature, t_unit);

        let r = HourRow {
            time,
            emoji: hour_entry.main_condition.get_emoji(),
            tone: condition_tone(&hour_entry.main_condition),
            condition: hour_entry.main_condition.to_string(),
            temperature,
            pop_percent: pop_percent(hour_entry.pop_hundredths),
        };
        assert(r.time@ =~= dec2(hour_of(local as int) as nat) + ":00"@);
        assert(r.temperature@ =~= fixed1(hour_entry.temperature_tenths as int) + temp_unit(config.units@));
        r
    }
}

impl DayRow {
    /// Builds a row from a daily forecast entry at position `index`.
    pub fn build(index: usize, day: &DailyForecast, location: &Location, config: &WeatherConfig) -> (r: Self)
        requires
            valid_instant(day.date as int),
        ensures
            day_row_of(r, index as int, *day, *location, config.units@),
    {
        let t_unit = temp_unit_label(config.units.as_str());
        let local = convert_to_local(day.date, location.timezone.as_str());

        let mut date = String::new();
        push_month_day_padded(&mut date, local);

        let mut temp_high_low = String::new();
        push_fixed0(&mut temp_high_low, day.temp_max_tenths);
        push_str(&mut temp_high_low, t_unit);
        push_str(&mut temp_high_low, " / ");
        push_fixed0(&mut temp_high_low, day.temp_min_tenths);
        push_str(&mut temp_high_low, t_unit);

        let r = DayRow {
            label: day_label(index, weekday_name(local)),
            date,
            emoji: day.main_condition.get_emoji(),
            tone: condition_tone(&day.main_condition),
            condition: day.main_condition.to_string(),
            temp_high_low,
            pop_percent: pop_percent(day.pop_hundredths),
        };
        assert(r.date@ =~= month_day_padded(local as int));
        assert(r.temp_high_low@ =~= fixed0(day.temp_max_tenths as int) + temp_unit(config.units@) + " / "@
            + fixed0(day.temp_min_tenths as int) + temp_unit(config.units@));
        r
    }
}

/// The number of rows kept of `n` entries under a `limit`.
pub open spec fn capped(n: int, limit: int) -> int {
    if n < limit { n } else { limit }
}

impl ForecastView {
    /// Builds the whole view model. When `current` is `None` the first hourly
    /// entry is promoted to the current block; at most `HOURLY_LIMIT` hours and
    /// `DAILY_LIMIT` days are kept, in order.
    pub fn build<C: CurrentConditions>(
        current: Option<&C>,
        hourly: &[HourlyForecast],
        daily: &[DailyForecast],
        location: &Location,
        config: &WeatherConfig,
    ) -> (r: Self)
        requires
            current matches Some(c) ==> valid_instant(c.observation().observed_at as int),
            hourly_valid(hourly@),
            daily_valid(daily@),
        ensures
            r.current is Some <==> (current is Some || hourly@.len() > 0),
            current matches Some(c) ==> current_view_of(r.current->0, c.observation(), *location, config.units@),
            (current is None && hourly@.len() > 0) ==> current_view_of(
                r.current->0, hourly@[0].observation(), *location, config.units@),
            r.hours@.len() == capped(hourly@.len() as int, HOURLY_LIMIT as int),
            forall|i: int| 0 <= i < r.hours@.len()
                ==> hour_row_of(#[trigger] r.hours@[i], hourly@[i], *location, config.units@),
            r.days@.len() == capped(daily@.len() as int, DAILY_LIMIT as int),
            forall|i: int| 0 <= i < r.days@.len()
                ==> day_row_of(#[trigger] r.days@[i], i, daily@[i], *location, config.units@),
    {
        let current_view = match current {
            Some(c) => Some(CurrentView::build(c, location, config)),
            None => {
                if hourly.len() > 0 {
                    Some(CurrentView::build(&hourly[0], location, config))
                } else {
                    None
                }
            },
        };

        let n_hours = if hourly.len() < HOURLY_LIMIT { hourly.len() } else { HOURLY_LIMIT };
        let mut hours: Vec<HourRow> = Vec::new();
        let mut i: usize = 0;
        while i < n_hours
            invariant
                n_hours == capped(hourly@.len() as int, HOURLY_LIMIT as int),
                i <= n_hours,
                hourly_valid(hourly@),
                hours@.len() == i,
                forall|k: int| 0 <= k < i ==> hour_row_of(#[trigger] hours@[k], hourly@[k], *location, config.units@),
            decreases n_hours - i,
        {
            let row = HourRow::build(&hourly[i], location, config);
            hours.push(row);
            i = i + 1;
        }

        let n_days = if daily.len() < DAILY_LIMIT { daily.len() } else { DAILY_LIMIT };
        let mut days: Vec<DayRow> = Vec::new();
        let mut j: usize = 0;
        while j < n_days
            invariant
                n_days == capped(daily@.len() as int, DAILY_LIMIT as int),
                j <= n_days,
                daily_valid(daily@),
                days@.len() == j,
                forall|k: int| 0 <= k < j ==> day_row_of(#[trigger] days@[k], k, daily@[k], *location, config.units@),
            decreases n_days - j,
        {
            let row = DayRow::build(j, &daily[j], location, config);
            days.push(row);
            j = j + 1;
        }

        ForecastView { current: current_view, hours, days }
    }
}

/// A palette: one value per condition tone.
#[derive(Debug, Clone, Copy)]
pub struct TonePalette<T> {
    pub sunny: T,
    pub cloudy: T,
    pub wet: T,
    pub storm: T,
    pub snow: T,
    pub fog: T,
    pub neutral: T,
}

impl<T: Copy> TonePalette<T> {
    /// The palette entry of a tone.
    pub open spec fn entry(&self, tone: ConditionTone) -> T {
        match tone {
            ConditionTone::Sunny => self.sunny,
            ConditionTone::Cloudy => self.cloudy,
            ConditionTone::Wet => self.wet,
            ConditionTone::Storm => self.storm,
            ConditionTone::Snow => self.snow,
            ConditionTone::Fog => self.fog,
            ConditionTone::Neutral => self.neutral,
        }
    }

    /// Picks the palette entry of a tone, so that each front-end defines its
    /// palette once.
    pub fn color(&self, tone: ConditionTone) -> (r: T)
        ensures
            r == self.entry(tone),
    {
        match tone {
            ConditionTone::Sunny => self.sunny,
            ConditionTone::Cloudy => self.cloudy,
            ConditionTone::Wet => self.wet,
            ConditionTone::Storm => self.storm,
            ConditionTone::Snow => self.snow,
            ConditionTone::Fog => self.fog,
            ConditionTone::Neutral => self.neutral,
        }
    }
}

} // verus!
