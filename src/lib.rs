//! A status line for an interactive coding-assistant session: widgets that
//! turn a snapshot of session state into text, themes and terminal colours,
//! and the layout engine that joins them into lines.
pub mod text;
pub mod widgets;
pub mod themes;
pub mod render;
pub mod config;
pub mod layout;
pub mod tui;
pub mod cli;
