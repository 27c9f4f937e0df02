//! The interactive browser: its state machine, its input handling and what it draws.

pub mod app;
pub mod components;
pub mod input;
