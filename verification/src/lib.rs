//! Browsing state, diff summaries and result caching for an interactive
//! commit-history browser.

pub mod cache;
pub mod diff;
pub mod models;
pub mod screen;
pub mod text;
pub mod ui;
