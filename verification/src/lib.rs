//! Verified core of the bottom-screen companion panel: key mapping, stats
//! history, window shuttling decisions, framebuffer pixel logic and the small
//! state machines that drive the launcher, touch and compositor threads.

pub mod types;
pub mod stats_history;
pub mod text;
pub mod keymap;
pub mod kwin;
pub mod framebuffer;
pub mod compositor;
pub mod touch;
pub mod lease;
pub mod launcher;
pub mod mock;
pub mod config;
pub mod commands;
pub mod sysstats;
