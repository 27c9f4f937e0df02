//! Pro player settings for Counter-Strike: the verified core of a terminal browser.
//!
//! `text` holds the character-level helpers every other module is stated over,
//! `models` the settings data and the tab cycle, `cli` the command line,
//! `crosshair` the share-code encoder, `scraper` the logic that turns scraped text
//! into settings, `ui` the interactive state machine and its presentation helpers,
//! and `theme` the theme catalogue filter.

pub mod text;
pub mod models;
pub mod crosshair;
pub mod scraper;
pub mod cli;
pub mod theme;
pub mod ui;
