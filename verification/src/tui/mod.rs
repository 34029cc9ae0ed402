//! The terminal view of the fleet.

pub mod action_laws;
pub mod actions;
pub mod agents_view;
pub mod app;
pub mod capture_laws;
pub mod captures;
pub mod cells;
pub mod daemon;
pub mod detail_view;
pub mod frame_view;
pub mod input;
pub mod key_laws;
pub mod laws;
pub mod layout;
pub mod lines;
pub mod messages_view;
pub mod pane;
pub mod pane_laws;
pub mod row_laws;
pub mod screen_laws;
pub mod shown_laws;
pub mod sidebar;
pub mod state;
pub mod state_laws;
pub mod stream;
pub mod task_laws;
pub mod tasks;
pub mod tasks_view;
pub mod theme;
pub mod tokens;
pub mod tokens_view;
