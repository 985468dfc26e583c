//! A UI that is a function of application state: the decisions behind
//! re-rendering the UI tree of a state when, and only when, the state changes.
//!
//! - `render`: the per-frame render decision, with change detection by `==`
//!   against the value rendered last.
//! - `change_hash`: change detection by the hash of the state, as a run
//!   condition that answers alike for every system in a frame.
//! - `config`: the settings of the plugin (schedule, run conditions, logging).
pub mod change_hash;
pub mod config;
pub mod render;
