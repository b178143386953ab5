//! Core of a plugin that embeds a browser engine in a scripting runtime.
//!
//! The engine itself, the host runtime and the plugin wiring live elsewhere;
//! this crate holds the values the plugin feeds them — the window geometry
//! the embedder reports, the identification strings it answers with, and the
//! outcome the initialization op hands back — each with a contract that pins
//! it down.

pub mod embedder;
pub mod geometry;
pub mod init;
