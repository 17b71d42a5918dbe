//! State, messages and update rules of the desktop application.
//!
//! `App::update` decides; the front-end performs the fetch it asks for and
//! feeds the result back as a `Message::Fetched`.

use vstd::prelude::*;
use crate::presentation::ForecastView;
use crate::text::{all_ascii, ascii_trim, push_str, str_eq, string_of, trim, trim_spec};
use crate::types::WeatherConfig;

verus! {

/// A successfully loaded, ready-to-render forecast.
#[derive(Debug, Clone)]
pub struct Loaded {
    pub location_name: String,
    pub view: ForecastView,
}

/// Messages driving the application.
#[derive(Debug)]
pub enum Message {
    /// The search text input changed.
    QueryChanged(String),
    /// Fetch for the current query (or auto-detect when it is empty).
    Search,
    /// Toggle between metric and imperial units (re-fetches).
    ToggleUnits,
    /// A weather fetch finished.
    Fetched(Result<Box<Loaded>, String>),
}

/// Loading status of the current view.
#[derive(Debug, Clone, PartialEq, Eq)]
pub enum Status {
    Loading,
    Ready,
    Error(String),
}

/// The root application state.
#[derive(Debug, Clone)]
pub struct App {
    pub config: WeatherConfig,
    pub query: String,
    pub status: Status,
    pub loaded: Option<Loaded>,
}

/// A weather fetch the front-end is asked to perform: the forecast for the
/// named location, or for the auto-detected one when `query` is `None`.
#[derive(Debug, Clone)]
pub struct FetchRequest {
    pub config: WeatherConfig,
    pub query: Option<String>,
}

/// What the front-end has to do after an update.
#[derive(Debug, Clone)]
pub enum Effect {
    /// Nothing.
    Nothing,
    /// Perform a fetch and report it back as `Message::Fetched`.
    Fetch(FetchRequest),
}

/// The view of an optional string.
pub open spec fn opt_view(o: Option<String>) -> Option<Seq<char>> {
    match o {
        Some(s) => Some(s@),
        None => None,
    }
}

/// The query to fetch for: the trimmed search text, or none when it is blank.
pub open spec fn query_of(text: Seq<char>) -> Option<Seq<char>> {
    if trim_spec(text).len() == 0 { None } else { Some(trim_spec(text)) }
}

/// The units after a toggle: imperial becomes metric, anything else imperial.
pub open spec fn toggled_units(units: Seq<char>) -> Seq<char> {
    if units == "imperial"@ { "metric"@ } else { "imperial"@ }
}

/// `e` asks for a fetch with configuration `config` and query `query`.
pub open spec fn fetches(e: Effect, config: WeatherConfig, query: Option<Seq<char>>) -> bool {
    match e {
        Effect::Fetch(req) => req.config == config && opt_view(req.query) == query,
        Effect::Nothing => false,
    }
}

/// The window title of a state.
pub open spec fn title_of(loaded: Option<Loaded>) -> Seq<char> {
    match loaded {
        Some(l) => "Weather Man — "@ + l.location_name@,
        None => "Weather Man"@,
    }
}

/// A copy of a configuration.
fn copy_config(c: &WeatherConfig) -> (r: WeatherConfig)
    ensures
        r == *c,
{
    WeatherConfig {
        units: c.units.clone(),
        location: match &c.location {
            Some(l) => Some(l.clone()),
            None => None,
        },
        json_output: c.json_output,
        animation_enabled: c.animation_enabled,
        detail_level: c.detail_level,
        no_charts: c.no_charts,
    }
}

impl App {
    /// The initial state: default configuration, empty search, loading; and
    /// the auto-detected fetch that starts it.
    pub fn new() -> (r: (App, Effect))
        ensures
            r.0.config.is_default(),
            r.0.query@.len() == 0,
            r.0.status == Status::Loading,
            r.0.loaded is None,
            fetches(r.1, r.0.config, None),
    {
        let config = WeatherConfig::default();
        let request = FetchRequest { config: copy_config(&config), query: None };
        let app = App { config, query: String::new(), status: Status::Loading, loaded: None };
        (app, Effect::Fetch(request))
    }

    /// Window title.
    pub fn title(&self) -> (r: String)
        ensures
            r@ == title_of(self.loaded),
    {
        match &self.loaded {
            Some(l) => {
                let mut s = string_of("Weather Man — ");
                push_str(&mut s, l.location_name.as_str());
                s
            },
            None => string_of("Weather Man"),
        }
    }

    /// The trimmed search text, or `None` when it is blank.
    pub fn current_query(&self) -> (r: Option<String>)
        ensures
            opt_view(r) == query_of(self.query@),
            all_ascii(self.query@) ==> trim_spec(self.query@) == ascii_trim(self.query@),
    {
        let q = trim(self.query.as_str());
        if q.unicode_len() == 0 {
            None
        } else {
            Some(string_of(q))
        }
    }

    /// Handles a message and says what the front-end has to do next.
    pub fn update(&mut self, message: Message) -> (e: Effect)
        ensures
            match message {
                Message::QueryChanged(q) => {
                    &&& final(self).query == q
                    &&& final(self).config == old(self).config
                    &&& final(self).status == old(self).status
                    &&& final(self).loaded == old(self).loaded
                    &&& e is Nothing
                },
                Message::Search => {
                    &&& final(self).status == Status::Loading
                    &&& final(self).config == old(self).config
                    &&& final(self).query == old(self).query
                    &&& final(self).loaded == old(self).loaded
                    &&& fetches(e, old(self).config, query_of(old(self).query@))
                },
                Message::ToggleUnits => {
                    &&& final(self).config.units@ == toggled_units(old(self).config.units@)
                    &&& final(self).config.location == old(self).config.location
                    &&& final(self).config.json_output == old(self).config.json_output
                    &&& final(self).config.animation_enabled == old(self).config.animation_enabled
                    &&& final(self).config.detail_level == old(self).config.detail_level
                    &&& final(self).config.no_charts == old(self).config.no_charts
                    &&& final(self).status == Status::Loading
                    &&& final(self).query == old(self).query
                    &&& final(self).loaded == old(self).loaded
                    &&& fetches(e, final(self).config, match query_of(old(self).query@) {
                        Some(q) => Some(q),
                        None => match old(self).loaded {
                            Some(l) => Some(l.location_name@),
                            None => None,
                        },
                    })
                },
                Message::Fetched(Ok(l)) => {
                    &&& final(self).status == Status::Ready
                    &&& final(self).loaded == Some(*l)
                    &&& final(self).config == old(self).config
                    &&& final(self).query == old(self).query
                    &&& e is Nothing
                },
                Message::Fetched(Err(err)) => {
                    &&& final(self).status == Status::Error(err)
                    &&& final(self).loaded == old(self).loaded
                    &&& final(self).config == old(self).config
                    &&& final(self).query == old(self).query
                    &&& e is Nothing
                },
            },
    {
        match message {
            Message::QueryChanged(q) => {
                self.query = q;
                Effect::Nothing
            },
            Message::Search => {
                self.status = Status::Loading;
                let query = self.current_query();
                Effect::Fetch(FetchRequest { config: copy_config(&self.config), query })
            },
            Message::ToggleUnits => {
                self.config.units = if str_eq(self.config.units.as_str(), "imperial") {
                    string_of("metric")
                } else {
                    string_of("imperial")
                };
                self.status = Status::Loading;
                let query = match self.current_query() {
                    Some(q) => Some(q),
                    None => match &self.loaded {
                        Some(l) => Some(l.location_name.clone()),
                        None => None,
                    },
                };
                Effect::Fetch(FetchRequest { config: copy_config(&self.config), query })
            },
            Message::Fetched(Ok(loaded)) => {
                self.status = Status::Ready;
                self.loaded = Some(*loaded);
                Effect::Nothing
            },
            Message::Fetched(Err(err)) => {
                self.status = Status::Error(err);
                Effect::Nothing
            },
        }
    }

    /// The label of the units toggle button: the unit currently shown.
    pub fn units_label(&self) -> (r: &'static str)
        ensures
            r@ == (if self.config.units@ == "imperial"@ { "°F"@ } else { "°C"@ }),
    {
        if str_eq(self.config.units.as_str(), "imperial") { "°F" } else { "°C" }
    }

    /// What the main area shows.
    pub fn body(&self) -> (r: Body)
        ensures
            r == body_of(self.status, self.loaded is Some),
    {
        match (&self.status, &self.loaded) {
            (Status::Error(_), _) => Body::Error,
            (Status::Loading, None) => Body::Loading,
            (_, Some(_)) => Body::Forecast,
            (_, None) => Body::NoData,
        }
    }
}

/// What the main area of the window shows.
#[derive(Debug, Clone, Copy, PartialEq, Eq, Structural, Hash)]
pub enum Body {
    /// The error message with a retry button.
    Error,
    /// "Loading weather…".
    Loading,
    /// The loaded forecast.
    Forecast,
    /// "No data".
    NoData,
}

/// What the main area shows for a status and whether a forecast is loaded.
pub open spec fn body_of(status: Status, has_loaded: bool) -> Body {
    match status {
        Status::Error(_) => Body::Error,
        Status::Loading => if has_loaded { Body::Forecast } else { Body::Loading },
        Status::Ready => if has_loaded { Body::Forecast } else { Body::NoData },
    }
}

} // verus!
