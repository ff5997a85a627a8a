//! A small library for consolidating configuration files into one directory
//! by way of symbolic links.
//!
//! A JSON configuration file lists link specifications: a label, a link kind
//! (file or directory), and a source and target location. The library parses
//! that configuration, resolves each location to an absolute path, and plans
//! one symbolic link per entry, skipping targets that already exist. The
//! filesystem work itself (reading the configuration file, creating the
//! links, printing progress) is left to the calling program; everything the
//! library decides is stated in contracts and verified.

pub mod config;
pub mod json;
pub mod resolve;
pub mod session;
