//! Verified core of a desktop launcher that installs a pinned Python runtime
//! and the `uv` package manager, keeps a local server's dependencies in sync
//! and supervises the server process.

pub mod archive;
pub mod cleanup;
pub mod commands;
pub mod download;
pub mod lock;
pub mod options;
pub mod progress;
pub mod python;
pub mod server;
pub mod text;
pub mod uv;
