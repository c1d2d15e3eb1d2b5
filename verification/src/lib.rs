//! Version-gated upgrade orchestration for the OpenEBS umbrella chart.
//!
//! The crate decides which package-manager invocations an upgrade needs, in
//! which order they run, and when the tracking job of an upgrade may be
//! removed. It performs no I/O itself: callers carry out the actions it hands
//! back and report how each one ended.

pub mod cli;
pub mod executor;
pub mod lifecycle;
pub mod plan;
pub mod policy;
pub mod version;
