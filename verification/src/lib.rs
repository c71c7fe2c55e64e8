//! Settings and requests of a command-line client that lists and triggers
//! the hotkeys of a running OBS Studio over its WebSocket control service.
//!
//! The library decides; the program around it reads files, parses the command
//! line and talks to the network.

pub mod config;
pub mod file;
pub mod yaml;
pub mod path;
pub mod action;
pub mod dispatch;
