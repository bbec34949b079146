//! Markdown rendering for the terminal.
pub mod table;
