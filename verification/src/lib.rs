//! Lifecycle manager for an externally distributed agent-server binary.
//!
//! The library resolves the release artifact for the host platform, decides
//! how to locate, download, extract and supervise the managed binary, and
//! tracks the service lifecycle in a single status value that is broadcast
//! to observers.  All decision logic lives here and is verified; the
//! surrounding process, network and file-system plumbing hands events in
//! and carries actions out.

pub mod api;
pub mod cache;
pub mod config_file;
pub mod extract;
pub mod lifecycle;
pub mod locator;
pub mod notify;
pub mod paths;
pub mod platform;
pub mod service;
pub mod strutil;
pub mod types;
pub mod vercmp;
pub mod version;
