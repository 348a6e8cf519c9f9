//! Proposes corrected command lines for a shell command that failed.
//!
//! A [`types::Command`] records what was run and what it printed. Each
//! [`rules::Rule`] recognises one kind of failure and proposes
//! [`types::Correction`]s for it; the [`engine::Engine`] asks every registered
//! rule and merges the proposals by priority.

pub mod config;
pub mod engine;
pub mod pattern;
pub mod ranking;
pub mod rules;
pub mod scripting;
pub mod shell;
pub mod shells;
pub mod text;
pub mod types;
pub mod ui;
pub mod utils;
