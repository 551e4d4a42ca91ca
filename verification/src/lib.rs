//! The verified core of a terminal and desktop client for a sing-box proxy
//! engine: the decisions the two user interfaces make about keys, selections,
//! filters, labels and the small text formats they exchange with the engine.

pub mod signals;
pub mod text;
pub mod format;
pub mod clash_api;
pub mod system_proxy;
pub mod core_release;
pub mod runtime_config;
pub mod style;
pub mod snapshot;
pub mod tui;
pub mod tui_logs;
pub mod gui_lang;
pub mod gui_state;
pub mod command;
pub mod theme;
pub mod gui_parse;
pub mod gui_startup;
pub mod gui_logs;
pub mod gui_search;
pub mod gui_dashboard;
pub mod engine_state;
pub mod gui_override;
pub mod gui_fields;
pub mod gui_usage;
pub mod order;
pub mod connections;
pub mod tui_override;
pub mod tui_state;
pub mod tui_keys;
pub mod tui_views;
pub mod tui_pages;
