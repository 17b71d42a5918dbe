//! The tabbed terminal view: its tabs, the keys that switch them, its
//! title and help bars, and the weather calendar tab.

use vstd::prelude::*;
use crate::text::{pad_right, push_padded_right, push_signed_dec, push_str, string_of, str_eq,
    signed_dec, dec};
use crate::time::{convert_to_local, local_instant, month_day_padded, push_month_day_padded,
    valid_instant, weekday_name, weekday_name_of, weekday_of};
use crate::tui::{span_is, StyledLine, StyledSpan, TermColor};
use crate::text::push_dec;
use crate::types::{display_name, emoji_of, DailyForecast, Location, WeatherCondition, WeatherConfig};
use crate::presentation::daily_valid;

verus! {

/// The tabs of the tabbed terminal view.
#[derive(Debug, Clone, Copy, PartialEq, Eq, Structural, Hash)]
pub enum TuiTab {
    CurrentWeather,
    WeatherForecast,
    Calendar,
}

/// The tab after `t`, wrapping around.
pub open spec fn next_tab(t: TuiTab) -> TuiTab {
    match t {
        TuiTab::CurrentWeather => TuiTab::WeatherForecast,
        TuiTab::WeatherForecast => TuiTab::Calendar,
        TuiTab::Calendar => TuiTab::CurrentWeather,
    }
}

/// The tab before `t`, wrapping around.
pub open spec fn prev_tab(t: TuiTab) -> TuiTab {
    match t {
        TuiTab::CurrentWeather => TuiTab::Calendar,
        TuiTab::WeatherForecast => TuiTab::CurrentWeather,
        TuiTab::Calendar => TuiTab::WeatherForecast,
    }
}

/// The position of a tab in the tab bar.
pub open spec fn tab_index(t: TuiTab) -> int {
    match t {
        TuiTab::CurrentWeather => 0,
        TuiTab::WeatherForecast => 1,
        TuiTab::Calendar => 2,
    }
}

/// The title of a tab.
pub open spec fn tab_title(t: TuiTab) -> Seq<char> {
    match t {
        TuiTab::CurrentWeather => "Current Weather"@,
        TuiTab::WeatherForecast => "Weather Forecast"@,
        TuiTab::Calendar => "Weather Calendar"@,
    }
}

impl TuiTab {
    /// The tab after this one, wrapping around.
    pub fn next(&self) -> (r: TuiTab)
        ensures
            r == next_tab(*self),
    {
        match self {
            TuiTab::CurrentWeather => TuiTab::WeatherForecast,
            TuiTab::WeatherForecast => TuiTab::Calendar,
            TuiTab::Calendar => TuiTab::CurrentWeather,
        }
    }

    /// The tab before this one, wrapping around.
    pub fn prev(&self) -> (r: TuiTab)
        ensures
            r == prev_tab(*self),
    {
        match self {
            TuiTab::CurrentWeather => TuiTab::Calendar,
            TuiTab::WeatherForecast => TuiTab::CurrentWeather,
            TuiTab::Calendar => TuiTab::WeatherForecast,
        }
    }

    /// The title of this tab.
    pub fn to_string(self) -> (r: &'static str)
        ensures
            r@ == tab_title(self),
    {
        match self {
            TuiTab::CurrentWeather => "Current Weather",
            TuiTab::WeatherForecast => "Weather Forecast",
            TuiTab::Calendar => "Weather Calendar",
        }
    }

    /// The position of this tab in the tab bar.
    pub fn index(self) -> (r: usize)
        ensures
            r == tab_index(self),
    {
        match self {
            TuiTab::CurrentWeather => 0,
            TuiTab::WeatherForecast => 1,
            TuiTab::Calendar => 2,
        }
    }
}

/// A key press on the tabbed view.
#[derive(Debug, Clone, Copy, PartialEq, Eq, Structural, Hash)]
pub enum TabKey {
    /// `q` or Esc.
    Quit,
    /// Right arrow or Tab.
    Next,
    /// Left arrow or Back-Tab.
    Prev,
    /// `1`.
    First,
    /// `2`.
    Second,
    /// `3`.
    Third,
    /// Any other key.
    Other,
}

/// What a key press does to the tabbed view.
#[derive(Debug, Clone, Copy, PartialEq, Eq, Structural, Hash)]
pub enum TabStep {
    /// Leave the view.
    Quit,
    /// Show this tab.
    Show(TuiTab),
}

/// The step a key press makes from tab `t`.
pub open spec fn tab_step(t: TuiTab, key: TabKey) -> TabStep {
    match key {
        TabKey::Quit => TabStep::Quit,
        TabKey::Next => TabStep::Show(next_tab(t)),
        TabKey::Prev => TabStep::Show(prev_tab(t)),
        TabKey::First => TabStep::Show(TuiTab::CurrentWeather),
        TabKey::Second => TabStep::Show(TuiTab::WeatherForecast),
        TabKey::Third => TabStep::Show(TuiTab::Calendar),
        TabKey::Other => TabStep::Show(t),
    }
}

/// Handles one key press on the tabbed view showing `active`.
pub fn handle_tab_key(active: TuiTab, key: TabKey) -> (r: TabStep)
    ensures
        r == tab_step(active, key),
{
    match key {
        TabKey::Quit => TabStep::Quit,
        TabKey::Next => TabStep::Show(active.next()),
        TabKey::Prev => TabStep::Show(active.prev()),
        TabKey::First => TabStep::Show(TuiTab::CurrentWeather),
        TabKey::Second => TabStep::Show(TuiTab::WeatherForecast),
        TabKey::Third => TabStep::Show(TuiTab::Calendar),
        TabKey::Other => TabStep::Show(active),
    }
}

/// The unit shown in the tabbed view's title: °C for metric, °F for
/// imperial, K for anything else.
pub open spec fn title_unit(units: Seq<char>) -> Seq<char> {
    if units == "metric"@ { "°C"@ } else if units == "imperial"@ { "°F"@ } else { "K"@ }
}

/// A span of `text`.
fn span(text: String, color: Option<TermColor>, bold: bool) -> (s: StyledSpan)
    ensures
        span_is(s, text@, color, bold),
{
    StyledSpan { text, color, bold }
}

/// A span copying a string slice.
fn span_str(text: &str, color: Option<TermColor>, bold: bool) -> (s: StyledSpan)
    ensures
        span_is(s, text@, color, bold),
{
    StyledSpan { text: string_of(text), color, bold }
}

/// The title bar of the tabbed view.
pub fn tabs_title_line(location: &Location, config: &WeatherConfig) -> (l: StyledLine)
    ensures
        l.spans@.len() == 5,
        span_is(l.spans@[0], "Weather Man - "@ + location.name@, Some(TermColor::Cyan), true),
        span_is(l.spans@[1], " "@, None, false),
        span_is(l.spans@[2], "["@ + location.country@ + ", "@ + location.country_code@ + "]"@,
            Some(TermColor::Gray), false),
        span_is(l.spans@[3], " "@, None, false),
        span_is(l.spans@[4], "("@ + title_unit(config.units@) + ")"@, Some(TermColor::Yellow), false),
{
    let units = config.units.as_str();
    let unit = if str_eq(units, "metric") { "°C" } else if str_eq(units, "imperial") { "°F" } else { "K" };
    let mut name = string_of("Weather Man - ");
    push_str(&mut name, location.name.as_str());
    let mut country = string_of("[");
    push_str(&mut country, location.country.as_str());
    push_str(&mut country, ", ");
    push_str(&mut country, location.country_code.as_str());
    push_str(&mut country, "]");
    let mut u = string_of("(");
    push_str(&mut u, unit);
    push_str(&mut u, ")");
    let mut spans = Vec::new();
    spans.push(span(name, Some(TermColor::Cyan), true));
    spans.push(span_str(" ", None, false));
    spans.push(span(country, Some(TermColor::Gray), false));
    spans.push(span_str(" ", None, false));
    spans.push(span(u, Some(TermColor::Yellow), false));
    let l = StyledLine { spans };
    assert(l.spans@[2].text@ =~= "["@ + location.country@ + ", "@ + location.country_code@ + "]"@);
    l
}

/// The help bar of the tabbed view.
pub fn tabs_help_line() -> (l: StyledLine)
    ensures
        l.spans@.len() == 9,
        span_is(l.spans@[0], "Keys: "@, Some(TermColor::Cyan), false),
        span_is(l.spans@[1], "←/→"@, Some(TermColor::Yellow), false),
        span_is(l.spans@[2], " Switch tabs | "@, None, false),
        span_is(l.spans@[3], "1-3"@, Some(TermColor::Yellow), false),
        span_is(l.spans@[4], " Select tab | "@, None, false),
        span_is(l.spans@[5], "q"@, Some(TermColor::Yellow), false),
        span_is(l.spans@[6], " Quit | "@, None, false),
        span_is(l.spans@[7], "ESC"@, Some(TermColor::Yellow), false),
        span_is(l.spans@[8], " Exit weather view"@, None, false),
{
    let mut spans = Vec::new();
    spans.push(span_str("Keys: ", Some(TermColor::Cyan), false));
    spans.push(span_str("←/→", Some(TermColor::Yellow), false));
    spans.push(span_str(" Switch tabs | ", None, false));
    spans.push(span_str("1-3", Some(TermColor::Yellow), false));
    spans.push(span_str(" Select tab | ", None, false));
    spans.push(span_str("q", Some(TermColor::Yellow), false));
    spans.push(span_str(" Quit | ", None, false));
    spans.push(span_str("ESC", Some(TermColor::Yellow), false));
    spans.push(span_str(" Exit weather view", None, false));
    StyledLine { spans }
}

/// The calendar colour of a condition.
pub open spec fn calendar_color_of(c: WeatherCondition) -> TermColor {
    match c {
        WeatherCondition::Clear => TermColor::Yellow,
        WeatherCondition::Clouds => TermColor::Gray,
        WeatherCondition::Rain | WeatherCondition::Drizzle => TermColor::Blue,
        WeatherCondition::Thunderstorm => TermColor::Magenta,
        WeatherCondition::Snow => TermColor::White,
        _ => TermColor::Gray,
    }
}

/// The calendar colour of a condition.
pub fn calendar_color(c: &WeatherCondition) -> (r: TermColor)
    ensures
        r == calendar_color_of(*c),
{
    match c {
        WeatherCondition::Clear => TermColor::Yellow,
        WeatherCondition::Clouds => TermColor::Gray,
        WeatherCondition::Rain | WeatherCondition::Drizzle => TermColor::Blue,
        WeatherCondition::Thunderstorm => TermColor::Magenta,
        WeatherCondition::Snow => TermColor::White,
        _ => TermColor::Gray,
    }
}

/// A value in tenths truncated toward zero to a whole number and saturated
/// to the `i32` range (what `(t / 10.0) as i32` computes).
pub open spec fn whole_trunc(t: int) -> int {
    let w = if t >= 0 { t / 10 } else { -((-t) / 10) };
    if w > i32::MAX { i32::MAX as int } else if w < i32::MIN { i32::MIN as int } else { w }
}

/// A value in tenths truncated toward zero, saturated to `i32`.
pub fn whole_part(t: i64) -> (r: i32)
    ensures
        r == whole_trunc(t as int),
{
    let w: i64 = if t >= 0 {
        t / 10
    } else if t == i64::MIN {
        -922337203685477580
    } else {
        -((-t) / 10)
    };
    if w > i32::MAX as i64 {
        i32::MAX
    } else if w < i32::MIN as i64 {
        i32::MIN
    } else {
        w as i32
    }
}

/// A probability of precipitation in hundredths as a whole percentage,
/// saturated to the `u8` range (what `(pop * 100.0) as u8` computes).
pub open spec fn saturated_percent(pop_hundredths: int) -> int {
    if pop_hundredths < 0 { 0 } else if pop_hundredths > 255 { 255 } else { pop_hundredths }
}

/// A probability of precipitation in hundredths, saturated to `u8`.
pub fn saturated_pop(pop_hundredths: i64) -> (r: u8)
    ensures
        r == saturated_percent(pop_hundredths as int),
{
    if pop_hundredths < 0 { 0 } else if pop_hundredths > 255 { 255 } else { pop_hundredths as u8 }
}

/// `l` is the calendar line of day `d` at `loc`.
pub open spec fn calendar_day_line(l: StyledLine, d: DailyForecast, loc: Location) -> bool {
    let local = local_instant(d.date as int, loc.timezone@);
    &&& l.spans@.len() == 11
    &&& span_is(l.spans@[0], pad_right(weekday_name_of(weekday_of(local)), 9), Some(TermColor::Cyan), false)
    &&& span_is(l.spans@[1], " "@, None, false)
    &&& span_is(l.spans@[2], month_day_padded(local), Some(TermColor::Gray), false)
    &&& span_is(l.spans@[3], "  "@, None, false)
    &&& span_is(l.spans@[4], emoji_of(d.main_condition), None, false)
    &&& span_is(l.spans@[5], " "@, None, false)
    &&& span_is(l.spans@[6], display_name(d.main_condition), Some(calendar_color_of(d.main_condition)), false)
    &&& span_is(l.spans@[7], "  "@, None, false)
    &&& span_is(l.spans@[8], signed_dec(whole_trunc(d.temp_min_tenths as int)) + "°-"@
        + signed_dec(whole_trunc(d.temp_max_tenths as int)) + "°C"@, Some(TermColor::White), false)
    &&& span_is(l.spans@[9], "  "@, None, false)
    &&& span_is(l.spans@[10], dec(saturated_percent(d.pop_hundredths as int) as nat) + "%"@,
        Some(TermColor::Blue), false)
}

/// The calendar line of one day.
fn calendar_line(d: &DailyForecast, location: &Location) -> (l: StyledLine)
    requires
        valid_instant(d.date as int),
    ensures
        calendar_day_line(l, *d, *location),
{
    let local = convert_to_local(d.date, location.timezone.as_str());
    let mut weekday = String::new();
    push_padded_right(&mut weekday, weekday_name(local), 9);
    let mut date = String::new();
    push_month_day_padded(&mut date, local);
    let mut temps = String::new();
    push_signed_dec(&mut temps, whole_part(d.temp_min_tenths) as i64);
    push_str(&mut temps, "°-");
    push_signed_dec(&mut temps, whole_part(d.temp_max_tenths) as i64);
    push_str(&mut temps, "°C");
    let mut pop = String::new();
    push_dec(&mut pop, saturated_pop(d.pop_hundredths) as u64);
    push_str(&mut pop, "%");
    let mut spans = Vec::new();
    spans.push(span(weekday, Some(TermColor::Cyan), false));
    spans.push(span_str(" ", None, false));
    spans.push(span(date, Some(TermColor::Gray), false));
    spans.push(span_str("  ", None, false));
    spans.push(span_str(d.main_condition.get_emoji(), None, false));
    spans.push(span_str(" ", None, false));
    spans.push(span(d.main_condition.to_string(), Some(calendar_color(&d.main_condition)), false));
    spans.push(span_str("  ", None, false));
    spans.push(span(temps, Some(TermColor::White), false));
    spans.push(span_str("  ", None, false));
    spans.push(span(pop, Some(TermColor::Blue), false));
    let l = StyledLine { spans };
    assert(l.spans@[0].text@ =~= pad_right(weekday_name_of(weekday_of(local as int)), 9));
    assert(l.spans@[2].text@ =~= month_day_padded(local as int));
    l
}

/// The weather calendar tab: a header, a blank line, one line per day for
/// at most seven days, a blank line and a legend.
pub fn calendar_lines(daily: &[DailyForecast], location: &Location) -> (lines: Vec<StyledLine>)
    requires
        daily_valid(daily@),
    ensures
        lines@.len() == (if daily@.len() < 7 { daily@.len() as int } else { 7 }) + 4,
        lines@[0].spans@.len() == 1,
        span_is(lines@[0].spans@[0], "7-Day Weather Calendar"@, Some(TermColor::Cyan), true),
        lines@[1].spans@.len() == 1,
        span_is(lines@[1].spans@[0], Seq::empty(), None, false),
        forall|i: int| 2 <= i < lines@.len() - 2
            ==> calendar_day_line(#[trigger] lines@[i], daily@[i - 2], *location),
        lines@[lines@.len() - 2].spans@.len() == 1,
        span_is(lines@[lines@.len() - 2].spans@[0], Seq::empty(), None, false),
        lines@[lines@.len() - 1].spans@.len() == 4,
        span_is(lines@[lines@.len() - 1].spans@[0], "Legend: "@, Some(TermColor::Gray), false),
        span_is(lines@[lines@.len() - 1].spans@[1], "Temperature Range"@, Some(TermColor::White), false),
        span_is(lines@[lines@.len() - 1].spans@[2], " | "@, None, false),
        span_is(lines@[lines@.len() - 1].spans@[3], "Rain %"@, Some(TermColor::Blue), false),
{
    let mut lines: Vec<StyledLine> = Vec::new();
    let mut header = Vec::new();
    header.push(span_str("7-Day Weather Calendar", Some(TermColor::Cyan), true));
    lines.push(StyledLine { spans: header });
    let mut blank = Vec::new();
    blank.push(span(String::new(), None, false));
    lines.push(StyledLine { spans: blank });
    let n = if daily.len() < 7 { daily.len() } else { 7 };
    let mut i: usize = 0;
    while i < n
        invariant
            n == (if daily@.len() < 7 { daily@.len() as int } else { 7 }),
            i <= n,
            daily_valid(daily@),
            lines@.len() == i + 2,
            lines@[0].spans@.len() == 1,
            span_is(lines@[0].spans@[0], "7-Day Weather Calendar"@, Some(TermColor::Cyan), true),
            lines@[1].spans@.len() == 1,
            span_is(lines@[1].spans@[0], Seq::empty(), None, false),
            forall|k: int| 2 <= k < i + 2 ==> calendar_day_line(#[trigger] lines@[k], daily@[k - 2], *location),
        decreases n - i,
    {
        lines.push(calendar_line(&daily[i], location));
        i = i + 1;
    }
    let mut blank2 = Vec::new();
    blank2.push(span(String::new(), None, false));
    lines.push(StyledLine { spans: blank2 });
    let mut legend = Vec::new();
    legend.push(span_str("Legend: ", Some(TermColor::Gray), false));
    legend.push(span_str("Temperature Range", Some(TermColor::White), false));
    legend.push(span_str(" | ", None, false));
    legend.push(span_str("Rain %", Some(TermColor::Blue), false));
    lines.push(StyledLine { spans: legend });
    lines
}

} // verus!
