//! Verified core of a copy/move/remove command-line tool.
//!
//! The crate holds the decision logic of the tool: the resume decision
//! table, the sparse-aware write planner, the overwrite and size planners,
//! the move fallback rules, the removal planner, the progress model and
//! the exclusion filter.  File-system access, terminal drawing and
//! argument parsing live outside the library and feed it plain values.

pub mod checksum;
pub mod cli;
pub mod config;
pub mod confirm;
pub mod display;
pub mod errors;
pub mod exclude;
pub mod init;
pub mod mover;
pub mod planner;
pub mod progress;
pub mod remover;
pub mod resume;
pub mod strutil;
pub mod transfer;
