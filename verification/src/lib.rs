//! Core logic of a desktop front-end that collects server-provisioning
//! options, persists them to a JSON cache, and drives an external
//! configuration-management tool over SSH.
//!
//! This crate holds the verified parts: the settings record and its
//! defaults, construction of the command line handed to the external
//! tool, and the line-by-line filtering and classification of the
//! tool's output. Process spawning, file I/O, and the GUI shell live
//! outside the library.

pub mod ansi;
pub mod args;
pub mod bridge;
pub mod cleanup;
pub mod config;
pub mod lines;
pub mod numfmt;
pub mod report;
pub mod style;
pub mod text;
