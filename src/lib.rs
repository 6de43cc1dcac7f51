//! Summaries of travel-expense disclosure records: trip durations computed
//! from calendar dates, amounts rendered to the cent, and one report line per
//! record for the first rows of a file.

pub mod date;
pub mod text;
pub mod trip;
pub mod report;
