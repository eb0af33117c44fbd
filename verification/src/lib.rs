//! Navigation, triage and display geometry of a single-window image browser.

pub mod cli;
pub mod geometry;
pub mod paths;
pub mod program;
pub mod ui;
