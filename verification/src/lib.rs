//! Scaffolding support for reproducible analysis projects: user
//! configuration, variable templates, and the engine that keeps a user's
//! template files in step with the templates bundled with a release.

pub mod catalog;
pub mod commands;
pub mod config;
pub mod examples;
pub mod hash;
pub mod listing;
pub mod manifest;
pub mod manifest_laws;
pub mod picker;
pub mod repl;
pub mod sync;
pub mod sync_laws;
pub mod templates;
pub mod templates_laws;
pub mod text;
pub mod theme;
pub mod tui;
