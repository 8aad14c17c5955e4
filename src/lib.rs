//! A process snapshot engine: turns raw per-process samples into sorted,
//! immutable snapshots with derived CPU usage, and keeps the state that a
//! periodic refresh and a safe termination need.
pub mod collector;
pub mod details;
pub mod order;
pub mod record;
pub mod store;
