//! Command-line client library for a game-statistics web service.
//!
//! The crate verifies the core of the client: the pattern-substitution
//! renderer that turns token strings and data records into output text,
//! the command descriptors and registry of the sub-command plugins, and
//! each plugin's rendering logic, which works on already-fetched data and
//! appends lines to caller-supplied output sinks.

pub mod app;
pub mod cfg;
pub mod constants;
pub mod plugins;
pub mod steam_api;
pub mod text;
pub mod tui;
pub mod ui;
