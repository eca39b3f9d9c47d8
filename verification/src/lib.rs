//! Verified core of an operations bot that keeps exactly one live status
//! message in a chat channel.
//!
//! The library holds the logic: the broadcaster state machine that reconciles
//! the remote message against a persisted identifier, the deterministic
//! renderer for system-metrics snapshots, the persisted-record codec, the
//! configuration resolution, the pinned-message scan, and the webhook message
//! builders.  All network, file and clock I/O lives outside the library and
//! feeds it plain values.

pub mod commands;
pub mod config;
pub mod decimal;
pub mod machine;
pub mod pins;
pub mod pull_requests;
pub mod render;
pub mod review_requests;
pub mod snapshot;
pub mod store;
pub mod text;
pub mod webhook;
pub mod workflow_runs;
