//! A drop-folder engine: watch a directory, run a command on each file that
//! matches a pattern, and move or delete the file according to how the
//! command ended.
//!
//! The library holds every decision of that pipeline and none of its input or
//! output. A driver lists the directory, runs the command, moves the files and
//! waits for change notifications; after each of these it reports what
//! happened and is told what to do next.

pub mod config;
pub mod disposal;
pub mod engine;
pub mod entry;
pub mod laws;
pub mod outcome;
pub mod paths;
pub mod pattern;
pub mod scan;

pub use config::{ConfigError, DirQDArgs};
