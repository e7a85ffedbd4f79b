//! Generation of nginx virtual-host documents from a list of site records.
//!
//! The crate turns validated `Site` records into rendered reverse-proxy
//! configuration documents, one per site, and decides how a batch of
//! per-site outcomes is reported. Reading the configuration, writing the
//! output files and spawning the per-site tasks are left to the binary
//! around the library.

pub mod config;
pub mod filter;
pub mod pipeline;
pub mod render;
pub mod verbose;

pub use config::Config;
pub use filter::redirect_domain;
