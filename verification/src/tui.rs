//! The single-page terminal view: its styled lines, its title and help
//! bars, and the keys that scroll it.
//!
//! Lines are held as plain styled text; the terminal front-end turns them
//! into widgets and draws them.

use vstd::prelude::*;
use crate::format::{temp_unit, temp_unit_label, ConditionTone};
use crate::presentation::{CurrentView, DayRow, ForecastView, HourRow, TonePalette};
use crate::text::{dec, pad_left, pad_right, push_dec, push_padded_left, push_padded_right,
    push_str, string_of};
use crate::types::{Location, WeatherConfig};
use crate::format::tone_of;
use crate::types::WeatherCondition;

verus! {

/// Terminal colours used by the views.
#[derive(Debug, Clone, Copy, PartialEq, Eq, Structural, Hash)]
pub enum TermColor {
    Yellow,
    Gray,
    Blue,
    Magenta,
    White,
    DarkGray,
    Red,
    Cyan,
    Green,
}

/// A run of text with one foreground colour, possibly bold.
#[derive(Debug, Clone)]
pub struct StyledSpan {
    pub text: String,
    pub color: Option<TermColor>,
    pub bold: bool,
}

/// One line of styled text.
#[derive(Debug, Clone)]
pub struct StyledLine {
    pub spans: Vec<StyledSpan>,
}

/// `s` holds `text` in colour `color`, bold or not.
pub open spec fn span_is(s: StyledSpan, text: Seq<char>, color: Option<TermColor>, bold: bool) -> bool {
    s.text@ == text && s.color == color && s.bold == bold
}

/// The terminal palette of condition tones.
pub open spec fn tone_term_color(tone: ConditionTone) -> TermColor {
    match tone {
        ConditionTone::Sunny => TermColor::Yellow,
        ConditionTone::Cloudy => TermColor::Gray,
        ConditionTone::Wet => TermColor::Blue,
        ConditionTone::Storm => TermColor::Magenta,
        ConditionTone::Snow => TermColor::White,
        ConditionTone::Fog => TermColor::DarkGray,
        ConditionTone::Neutral => TermColor::Gray,
    }
}

/// The terminal palette.
pub fn palette() -> (p: TonePalette<TermColor>)
    ensures
        forall|t: ConditionTone| p.entry(t) == tone_term_color(t),
{
    TonePalette {
        sunny: TermColor::Yellow,
        cloudy: TermColor::Gray,
        wet: TermColor::Blue,
        storm: TermColor::Magenta,
        snow: TermColor::White,
        fog: TermColor::DarkGray,
        neutral: TermColor::Gray,
    }
}

/// Maps a condition tone to a terminal colour.
pub fn tone_color(tone: ConditionTone) -> (r: TermColor)
    ensures
        r == tone_term_color(tone),
{
    palette().color(tone)
}

/// Maps a weather condition to the terminal colour of its tone.
pub fn condition_color(condition: &WeatherCondition) -> (r: TermColor)
    ensures
        r == tone_term_color(tone_of(*condition)),
{
    tone_color(crate::format::condition_tone(condition))
}

/// A span of `text`.
fn span(text: String, color: Option<TermColor>, bold: bool) -> (s: StyledSpan)
    ensures
        span_is(s, text@, color, bold),
{
    StyledSpan { text, color, bold }
}

/// A span copying a string slice.
fn span_str(text: &str, color: Option<TermColor>, bold: bool) -> (s: StyledSpan)
    ensures
        span_is(s, text@, color, bold),
{
    StyledSpan { text: string_of(text), color, bold }
}

/// `l` is a single bold cyan span of `title`.
pub open spec fn is_header(l: StyledLine, title: Seq<char>) -> bool {
    l.spans@.len() == 1 && span_is(l.spans@[0], title, Some(TermColor::Cyan), true)
}

/// `l` is a single red span of `msg`.
pub open spec fn is_missing(l: StyledLine, msg: Seq<char>) -> bool {
    l.spans@.len() == 1 && span_is(l.spans@[0], msg, Some(TermColor::Red), false)
}

/// A section header line.
fn section_header(title: &str) -> (l: StyledLine)
    ensures
        is_header(l, title@),
{
    let mut spans = Vec::new();
    spans.push(span_str(title, Some(TermColor::Cyan), true));
    StyledLine { spans }
}

/// A "no data" line.
fn missing(msg: &str) -> (l: StyledLine)
    ensures
        is_missing(l, msg@),
{
    let mut spans = Vec::new();
    spans.push(span_str(msg, Some(TermColor::Red), false));
    StyledLine { spans }
}

/// The first data line of the current-conditions section.
pub open spec fn current_first_line(l: StyledLine, c: CurrentView) -> bool {
    &&& l.spans@.len() == 5
    &&& span_is(l.spans@[0], c.emoji@ + " "@, None, false)
    &&& span_is(l.spans@[1], c.condition@, Some(tone_term_color(c.tone)), false)
    &&& span_is(l.spans@[2], "   "@, None, false)
    &&& span_is(l.spans@[3], c.temperature@, Some(TermColor::White), true)
    &&& span_is(l.spans@[4], "  (feels "@ + c.feels_like@ + ")"@, None, false)
}

/// The second data line of the current-conditions section.
pub open spec fn current_second_line(l: StyledLine, c: CurrentView) -> bool {
    &&& l.spans@.len() == 8
    &&& span_is(l.spans@[0], "Local time: "@, Some(TermColor::Gray), false)
    &&& span_is(l.spans@[1], c.local_time@, None, false)
    &&& span_is(l.spans@[2], "   "@, None, false)
    &&& span_is(l.spans@[3], "Humidity: "@, Some(TermColor::Gray), false)
    &&& span_is(l.spans@[4], c.humidity@, None, false)
    &&& span_is(l.spans@[5], "   "@, None, false)
    &&& span_is(l.spans@[6], "Wind: "@, Some(TermColor::Gray), false)
    &&& span_is(l.spans@[7], c.wind@, None, false)
}

/// `lines` is the current-conditions section for `current`.
pub open spec fn current_section(lines: Seq<StyledLine>, current: Option<CurrentView>) -> bool {
    &&& lines.len() > 0
    &&& is_header(lines[0], "🌡  Current Conditions"@)
    &&& match current {
        None => lines.len() == 2 && is_missing(lines[1], "No current weather data available."@),
        Some(c) => lines.len() == 3 && current_first_line(lines[1], c) && current_second_line(lines[2], c),
    }
}

/// `l` is the line of hourly row `h`.
pub open spec fn hour_line(l: StyledLine, h: HourRow) -> bool {
    &&& l.spans@.len() == 7
    &&& span_is(l.spans@[0], h.time@ + "  "@, Some(TermColor::Cyan), false)
    &&& span_is(l.spans@[1], h.emoji@ + " "@, None, false)
    &&& span_is(l.spans@[2], pad_left(h.temperature@, 7), Some(TermColor::White), false)
    &&& span_is(l.spans@[3], "   "@, None, false)
    &&& span_is(l.spans@[4], "💧 "@ + pad_left(dec(h.pop_percent as nat), 3) + "%"@, Some(TermColor::Blue), false)
    &&& span_is(l.spans@[5], "   "@, None, false)
    &&& span_is(l.spans@[6], h.condition@, Some(tone_term_color(h.tone)), false)
}

/// `l` is the line of daily row `d`.
pub open spec fn day_line(l: StyledLine, d: DayRow) -> bool {
    &&& l.spans@.len() == 7
    &&& span_is(l.spans@[0], pad_right(d.label@, 10), Some(TermColor::Cyan), true)
    &&& span_is(l.spans@[1], pad_right(d.date@, 6), Some(TermColor::Gray), false)
    &&& span_is(l.spans@[2], d.emoji@ + " "@, None, false)
    &&& span_is(l.spans@[3], pad_right(d.condition@, 13), Some(tone_term_color(d.tone)), false)
    &&& span_is(l.spans@[4], pad_left(d.temp_high_low@, 13), Some(TermColor::White), false)
    &&& span_is(l.spans@[5], "   "@, None, false)
    &&& span_is(l.spans@[6], "💧 "@ + pad_left(dec(d.pop_percent as nat), 3) + "%"@, Some(TermColor::Blue), false)
}

/// `lines` is the hourly section for `hours`.
pub open spec fn hourly_section(lines: Seq<StyledLine>, hours: Seq<HourRow>) -> bool {
    &&& lines.len() > 0
    &&& is_header(lines[0], "🕓  Next 24 Hours"@)
    &&& if hours.len() == 0 {
        lines.len() == 2 && is_missing(lines[1], "No hourly forecast data available."@)
    } else {
        lines.len() == hours.len() + 1
            && forall|i: int| 0 <= i < hours.len() ==> hour_line(#[trigger] lines[i + 1], hours[i])
    }
}

/// `lines` is the daily section for `days`.
pub open spec fn daily_section(lines: Seq<StyledLine>, days: Seq<DayRow>) -> bool {
    &&& lines.len() > 0
    &&& is_header(lines[0], "📅  7-Day Forecast"@)
    &&& if days.len() == 0 {
        lines.len() == 2 && is_missing(lines[1], "No daily forecast data available."@)
    } else {
        lines.len() == days.len() + 1
            && forall|i: int| 0 <= i < days.len() ==> day_line(#[trigger] lines[i + 1], days[i])
    }
}

/// The "💧 NNN%" text of a percentage.
fn pop_text(p: u8) -> (s: String)
    ensures
        s@ == "💧 "@ + pad_left(dec(p as nat), 3) + "%"@,
{
    let mut digits = String::new();
    push_dec(&mut digits, p as u64);
    let mut s = string_of("💧 ");
    push_padded_left(&mut s, digits.as_str(), 3);
    push_str(&mut s, "%");
    s
}

/// Builds the current-conditions section from a pre-computed view.
pub fn current_lines(current: Option<&CurrentView>) -> (lines: Vec<StyledLine>)
    ensures
        current_section(lines@, match current { Some(c) => Some(*c), None => None }),
{
    let mut lines = Vec::new();
    lines.push(section_header("🌡  Current Conditions"));
    match current {
        None => {
            lines.push(missing("No current weather data available."));
        },
        Some(c) => {
            let mut emoji = string_of(c.emoji);
            push_str(&mut emoji, " ");
            let mut feels = string_of("  (feels ");
            push_str(&mut feels, c.feels_like.as_str());
            push_str(&mut feels, ")");
            let mut first = Vec::new();
            first.push(span(emoji, None, false));
            first.push(span_str(c.condition.as_str(), Some(tone_color(c.tone)), false));
            first.push(span_str("   ", None, false));
            first.push(span_str(c.temperature.as_str(), Some(TermColor::White), true));
            first.push(span(feels, None, false));
            lines.push(StyledLine { spans: first });

            let mut second = Vec::new();
            second.push(span_str("Local time: ", Some(TermColor::Gray), false));
            second.push(span_str(c.local_time.as_str(), None, false));
            second.push(span_str("   ", None, false));
            second.push(span_str("Humidity: ", Some(TermColor::Gray), false));
            second.push(span_str(c.humidity.as_str(), None, false));
            second.push(span_str("   ", None, false));
            second.push(span_str("Wind: ", Some(TermColor::Gray), false));
            second.push(span_str(c.wind.as_str(), None, false));
            lines.push(StyledLine { spans: second });
        },
    }
    lines
}

/// The line of one hourly row.
fn hour_row_line(h: &HourRow) -> (l: StyledLine)
    ensures
        hour_line(l, *h),
{
    let mut time = string_of(h.time.as_str());
    push_str(&mut time, "  ");
    let mut emoji = string_of(h.emoji);
    push_str(&mut emoji, " ");
    let mut temp = String::new();
    push_padded_left(&mut temp, h.temperature.as_str(), 7);
    let mut spans = Vec::new();
    spans.push(span(time, Some(TermColor::Cyan), false));
    spans.push(span(emoji, None, false));
    spans.push(span(temp, Some(TermColor::White), false));
    spans.push(span_str("   ", None, false));
    spans.push(span(pop_text(h.pop_percent), Some(TermColor::Blue), false));
    spans.push(span_str("   ", None, false));
    spans.push(span_str(h.condition.as_str(), Some(tone_color(h.tone)), false));
    let l = StyledLine { spans };
    assert(l.spans@[2].text@ =~= pad_left(h.temperature@, 7));
    l
}

/// The line of one daily row.
fn day_row_line(d: &DayRow) -> (l: StyledLine)
    ensures
        day_line(l, *d),
{
    let mut label = String::new();
    push_padded_right(&mut label, d.label.as_str(), 10);
    let mut date = String::new();
    push_padded_right(&mut date, d.date.as_str(), 6);
    let mut emoji = string_of(d.emoji);
    push_str(&mut emoji, " ");
    let mut condition = String::new();
    push_padded_right(&mut condition, d.condition.as_str(), 13);
    let mut temps = String::new();
    push_padded_left(&mut temps, d.temp_high_low.as_str(), 13);
    let mut spans = Vec::new();
    spans.push(span(label, Some(TermColor::Cyan), true));
    spans.push(span(date, Some(TermColor::Gray), false));
    spans.push(span(emoji, None, false));
    spans.push(span(condition, Some(tone_color(d.tone)), false));
    spans.push(span(temps, Some(TermColor::White), false));
    spans.push(span_str("   ", None, false));
    spans.push(span(pop_text(d.pop_percent), Some(TermColor::Blue), false));
    let l = StyledLine { spans };
    assert(l.spans@[0].text@ =~= pad_right(d.label@, 10));
    assert(l.spans@[1].text@ =~= pad_right(d.date@, 6));
    assert(l.spans@[3].text@ =~= pad_right(d.condition@, 13));
    assert(l.spans@[4].text@ =~= pad_left(d.temp_high_low@, 13));
    l
}

/// Builds the next-24-hours section from pre-computed rows.
pub fn hourly_lines(hours: &[HourRow]) -> (lines: Vec<StyledLine>)
    ensures
        hourly_section(lines@, hours@),
{
    let mut lines = Vec::new();
    lines.push(section_header("🕓  Next 24 Hours"));
    if hours.len() == 0 {
        lines.push(missing("No hourly forecast data available."));
        return lines;
    }
    let mut i: usize = 0;
    while i < hours.len()
        invariant
            i <= hours@.len(),
            lines@.len() == i + 1,
            is_header(lines@[0], "🕓  Next 24 Hours"@),
            forall|k: int| 0 <= k < i ==> hour_line(#[trigger] lines@[k + 1], hours@[k]),
        decreases hours@.len() - i,
    {
        lines.push(hour_row_line(&hours[i]));
        i = i + 1;
    }
    lines
}

/// Builds the 7-day section from pre-computed rows.
pub fn daily_lines(days: &[DayRow]) -> (lines: Vec<StyledLine>)
    ensures
        daily_section(lines@, days@),
{
    let mut lines = Vec::new();
    lines.push(section_header("📅  7-Day Forecast"));
    if days.len() == 0 {
        lines.push(missing("No daily forecast data available."));
        return lines;
    }
    let mut i: usize = 0;
    while i < days.len()
        invariant
            i <= days@.len(),
            lines@.len() == i + 1,
            is_header(lines@[0], "📅  7-Day Forecast"@),
            forall|k: int| 0 <= k < i ==> day_line(#[trigger] lines@[k + 1], days@[k]),
        decreases days@.len() - i,
    {
        lines.push(day_row_line(&days[i]));
        i = i + 1;
    }
    lines
}

/// The blank separator line.
pub open spec fn is_blank(l: StyledLine) -> bool {
    l.spans@.len() == 1 && span_is(l.spans@[0], Seq::empty(), None, false)
}

/// A blank line.
fn blank_line() -> (l: StyledLine)
    ensures
        is_blank(l),
{
    let mut spans = Vec::new();
    spans.push(span(String::new(), None, false));
    StyledLine { spans }
}

/// The number of lines of each section of a page.
pub open spec fn current_section_len(has_current: bool) -> int {
    if has_current { 3 } else { 2 }
}

/// The number of lines of a list section with `n` rows.
pub open spec fn list_section_len(n: int) -> int {
    if n == 0 { 2 } else { n + 1 }
}

/// The number of lines of the page of a view: the three sections and the
/// two blank lines between them.
pub open spec fn page_len(view: ForecastView) -> int {
    current_section_len(view.current is Some) + 1 + list_section_len(view.hours@.len() as int) + 1
        + list_section_len(view.days@.len() as int)
}

/// Assembles the whole scrollable page from a forecast view model.
pub fn build_page(view: &ForecastView) -> (lines: Vec<StyledLine>)
    ensures
        lines@.len() == page_len(*view),
        current_section(lines@.subrange(0, current_section_len(view.current is Some)),
            view.current),
        is_blank(lines@[current_section_len(view.current is Some)]),
        hourly_section(lines@.subrange(current_section_len(view.current is Some) + 1,
            current_section_len(view.current is Some) + 1 + list_section_len(view.hours@.len() as int)),
            view.hours@),
        is_blank(lines@[current_section_len(view.current is Some) + 1
            + list_section_len(view.hours@.len() as int)]),
        daily_section(lines@.subrange(current_section_len(view.current is Some) + 2
            + list_section_len(view.hours@.len() as int), lines@.len() as int), view.days@),
{
    let cur = current_lines(view.current.as_ref());
    let hrs = hourly_lines(view.hours.as_slice());
    let dys = daily_lines(view.days.as_slice());
    let mut lines: Vec<StyledLine> = Vec::new();
    let mut a = cur;
    lines.append(&mut a);
    lines.push(blank_line());
    let mut b = hrs;
    lines.append(&mut b);
    lines.push(blank_line());
    let mut c = dys;
    lines.append(&mut c);
    proof {
        let n1 = cur@.len() as int;
        let n2 = hrs@.len() as int;
        assert(lines@.subrange(0, n1) =~= cur@);
        assert(lines@.subrange(n1 + 1, n1 + 1 + n2) =~= hrs@);
        assert(lines@.subrange(n1 + 2 + n2, lines@.len() as int) =~= dys@);
    }
    lines
}

/// Total number of content lines, as a `u16` (used to clamp scrolling).
pub fn page_line_count(view: &ForecastView) -> (n: u16)
    ensures
        n == page_len(*view) % 65536,
{
    let lines = build_page(view);
    (lines.len() % 65536) as u16
}

/// The title bar: location, country and temperature unit.
pub fn title_line(location: &Location, config: &WeatherConfig) -> (l: StyledLine)
    ensures
        l.spans@.len() == 5,
        span_is(l.spans@[0], "Weather Man - "@ + location.name@, Some(TermColor::Cyan), true),
        span_is(l.spans@[1], "  "@, None, false),
        span_is(l.spans@[2], "["@ + location.country@ + "]"@, Some(TermColor::Gray), false),
        span_is(l.spans@[3], "  "@, None, false),
        span_is(l.spans@[4], "("@ + temp_unit(config.units@) + ")"@, Some(TermColor::Yellow), false),
{
    let mut name = string_of("Weather Man - ");
    push_str(&mut name, location.name.as_str());
    let mut country = string_of("[");
    push_str(&mut country, location.country.as_str());
    push_str(&mut country, "]");
    let mut unit = string_of("(");
    push_str(&mut unit, temp_unit_label(config.units.as_str()));
    push_str(&mut unit, ")");
    let mut spans = Vec::new();
    spans.push(span(name, Some(TermColor::Cyan), true));
    spans.push(span_str("  ", None, false));
    spans.push(span(country, Some(TermColor::Gray), false));
    spans.push(span_str("  ", None, false));
    spans.push(span(unit, Some(TermColor::Yellow), false));
    StyledLine { spans }
}

/// The help bar listing the keys.
pub fn help_line() -> (l: StyledLine)
    ensures
        l.spans@.len() == 9,
        span_is(l.spans@[0], "Keys: "@, Some(TermColor::Cyan), false),
        span_is(l.spans@[1], "↑/↓"@, Some(TermColor::Yellow), false),
        span_is(l.spans@[2], " Scroll | "@, None, false),
        span_is(l.spans@[3], "PgUp/PgDn"@, Some(TermColor::Yellow), false),
        span_is(l.spans@[4], " Page | "@, None, false),
        span_is(l.spans@[5], "g/G"@, Some(TermColor::Yellow), false),
        span_is(l.spans@[6], " Top/Bottom | "@, None, false),
        span_is(l.spans@[7], "q/ESC"@, Some(TermColor::Yellow), false),
        span_is(l.spans@[8], " Quit"@, None, false),
{
    let mut spans = Vec::new();
    spans.push(span_str("Keys: ", Some(TermColor::Cyan), false));
    spans.push(span_str("↑/↓", Some(TermColor::Yellow), false));
    spans.push(span_str(" Scroll | ", None, false));
    spans.push(span_str("PgUp/PgDn", Some(TermColor::Yellow), false));
    spans.push(span_str(" Page | ", None, false));
    spans.push(span_str("g/G", Some(TermColor::Yellow), false));
    spans.push(span_str(" Top/Bottom | ", None, false));
    spans.push(span_str("q/ESC", Some(TermColor::Yellow), false));
    spans.push(span_str(" Quit", None, false));
    StyledLine { spans }
}

/// A key press on the scrollable page.
#[derive(Debug, Clone, Copy, PartialEq, Eq, Structural, Hash)]
pub enum PageKey {
    /// `q` or Esc.
    Quit,
    /// Down arrow or `j`.
    Down,
    /// Up arrow or `k`.
    Up,
    /// Page Down.
    PageDown,
    /// Page Up.
    PageUp,
    /// `g` or Home.
    Top,
    /// `G` or End.
    Bottom,
    /// Any other key.
    Other,
}

/// What a key press does to the page.
#[derive(Debug, Clone, Copy, PartialEq, Eq, Structural, Hash)]
pub enum PageStep {
    /// Leave the page.
    Quit,
    /// Show the page scrolled to this line.
    Scroll(u16),
}

/// `a + b` capped at `total`, as `saturating_add(b).min(total)` computes it.
pub open spec fn forward(a: int, b: int, total: int) -> int {
    let s = if a + b > 65535 { 65535 } else { a + b };
    if s < total { s } else { total }
}

/// `a - b` floored at zero.
pub open spec fn backward(a: int, b: int) -> int {
    if a < b { 0 } else { a - b }
}

/// The step a key press makes from `scroll` on a page of `total` lines.
pub open spec fn page_step(scroll: int, total: int, key: PageKey) -> PageStep {
    match key {
        PageKey::Quit => PageStep::Quit,
        PageKey::Down => PageStep::Scroll(forward(scroll, 1, total) as u16),
        PageKey::Up => PageStep::Scroll(backward(scroll, 1) as u16),
        PageKey::PageDown => PageStep::Scroll(forward(scroll, 10, total) as u16),
        PageKey::PageUp => PageStep::Scroll(backward(scroll, 10) as u16),
        PageKey::Top => PageStep::Scroll(0),
        PageKey::Bottom => PageStep::Scroll(total as u16),
        PageKey::Other => PageStep::Scroll(scroll as u16),
    }
}

/// Handles one key press on a page of `total` lines scrolled to `scroll`.
pub fn handle_page_key(scroll: u16, total: u16, key: PageKey) -> (r: PageStep)
    ensures
        r == page_step(scroll as int, total as int, key),
{
    match key {
        PageKey::Quit => PageStep::Quit,
        PageKey::Down => {
            let s = scroll.saturating_add(1);
            PageStep::Scroll(if s < total { s } else { total })
        },
        PageKey::Up => PageStep::Scroll(scroll.saturating_sub(1)),
        PageKey::PageDown => {
            let s = scroll.saturating_add(10);
            PageStep::Scroll(if s < total { s } else { total })
        },
        PageKey::PageUp => PageStep::Scroll(scroll.saturating_sub(10)),
        PageKey::Top => PageStep::Scroll(0),
        PageKey::Bottom => PageStep::Scroll(total),
        PageKey::Other => PageStep::Scroll(scroll),
    }
}

} // verus!
