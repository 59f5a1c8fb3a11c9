//! Download queue, retry policy and installation planning for a Minecraft
//! launcher.
//!
//! Every decision the launcher takes is a verified function of plain values.
//! Network, file system and clock stay with the caller, which performs the
//! requests that the state machines here hand out and reports what happened.

pub mod error;
pub mod text;
pub mod retry;
pub mod locate;
pub mod fetcher;
pub mod paths;
pub mod downloader;
pub mod world;
pub mod fabric;
pub mod mods;
pub mod installer;
pub mod authenticator;
pub mod launcher;
