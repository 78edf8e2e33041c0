//! Detects a running digital-audio-workstation (DAW) process, extracts a
//! status snapshot (project name, resource usage, version), composes a rich
//! presence text from it, and maintains exactly one live connection to the
//! broadcast peer, reconnecting when a push fails.

pub mod daw;
pub mod discord;
pub mod monitor;
pub mod platform;
pub mod project;
pub mod reconcile;
pub mod settings;
pub mod text;
