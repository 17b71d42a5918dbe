//! Weather domain logic shared by the terminal and desktop front-ends:
//! condition mapping, unit and wind labels, local-time arithmetic,
//! display-ready view models, saved-location settings and the small
//! state machines that drive the interactive views.

pub mod text;
pub mod types;
pub mod time;
pub mod format;
pub mod persistence;
pub mod presentation;
pub mod tui;
pub mod gui;
pub mod tabs;
pub mod location;
pub mod report;
pub mod advice;
pub mod laws;
