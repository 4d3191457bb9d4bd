//! File-logger initialization, verified.
//!
//! The library models the one-shot setup of a process-wide file logger:
//! resolving a configuration directory, deriving the log file path, opening
//! the file in append mode, building the sink configuration, and installing
//! the sink exactly once. The decisions are verified here; the surrounding
//! process (filesystem access, the global sink) performs the actions and
//! reports their outcomes back as plain events.

pub mod config;
pub mod init;
pub mod paths;
pub mod sink;
