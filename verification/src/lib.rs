//! Resolution of the launch command for the C3 language server.
//!
//! The crate decides which executable an editor host should run as the
//! language server for a workspace: an explicitly configured path when one
//! exists, otherwise a bundled binary that is kept up to date from upstream
//! releases. All decisions are made here over plain values; the host performs
//! the file reads, network fetches and downloads and feeds the outcomes back
//! through the state machine in [`pipeline`].

pub mod cache;
pub mod command;
pub mod config;
pub mod pipeline;
pub mod platform;
