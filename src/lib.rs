//! A clipboard for filesystem objects that outlives the process.
//!
//! One invocation marks a file or directory for copying or cutting; a later,
//! independent invocation pastes it into a destination directory. The pending
//! operation is kept as a two-line text record between invocations. This crate
//! holds the logic: path resolution, the record format, argument handling, and
//! the controller that decides, step by step, what the driver has to do.
pub mod text;
pub mod path;
pub mod record;
pub mod config;
pub mod error;
pub mod progress;
pub mod controller;
pub mod laws;
