//! What tmux is told.

pub mod keys;
pub mod sessions;
