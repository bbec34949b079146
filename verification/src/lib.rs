//! Terminal conversation client logic: localisation, slash commands and
//! settings, transcript projection and cells, pager scrolling, the model
//! and session pickers, and table layout.
pub mod history_cell;
pub mod history_filter;
pub mod input;
pub mod insert_history;
pub mod keymap;
pub mod locale;
pub mod markdown;
pub mod model_picker;
pub mod multi_agents;
pub mod pager_overlay;
pub mod projection;
pub mod session_resume;
pub mod protocol;
pub mod resume_picker;
pub mod runtime;
pub mod settings;
pub mod slash_command;
pub mod span_style;
pub mod status_indicator;
pub mod terminal_output;
pub mod text;
pub mod width;
