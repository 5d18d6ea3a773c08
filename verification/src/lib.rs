//! Parsing of human-written date and time strings into instants.

pub mod pattern;
pub mod shapes;
pub mod text;
pub mod calendar;
pub mod chrono_bridge;
pub mod timezone;
pub mod datetime;
pub mod laws;
pub mod format_laws;
