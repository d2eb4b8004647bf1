//! Client-side core of a command-line front end for a long-running local
//! server: session lifecycle management (spawn-on-demand handshake, status
//! classification, lease renewal) and a resilient outbound fetch layer
//! (bounded retry, adaptive pacing, site-rule dispatch).

pub mod channel;
pub mod config;
pub mod download;
pub mod error;
pub mod handshake;
pub mod import;
pub mod server;
pub mod source_data;
pub mod sweep;
pub mod text;
