//! Verified core of the ax multi-agent workspace manager.

pub mod config;
pub mod keyed;
pub mod mcp;
pub mod order;
pub mod proto;
pub mod text;
pub mod text_laws;
pub mod time;
pub mod tmux;
pub mod tui;
