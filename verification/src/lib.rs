//! Locates the newest episode of a monitored series, turns its transcript into
//! a summary request, and shapes the summary into size-bounded chat messages.

pub mod config;
pub mod error;
pub mod models;
pub mod runs;
pub mod services;
pub mod text;
