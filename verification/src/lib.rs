//! A declarative reconciliation controller core: it maps a user-authored
//! intent describing a workload (container image, replica count, placement
//! hints) to a desired infrastructure manifest, decides what a reconcile
//! attempt must do, projects the attempt's outcome into a status document,
//! and picks the delay until the next attempt.
//!
//! All cluster I/O (the watch machinery and the gateway calls that apply a
//! manifest or write a status) lives outside this crate; the crate's
//! functions are pure decisions from plain values to plain values.

pub mod engine;
pub mod intent;
pub mod manifest;
pub mod requeue;
pub mod status;
