//! Verified core of a small process engine: flows of elements, task
//! variables, workers that move a task through its flow, and the rules that
//! decide what each step does.
//!
//! Identifiers are kept as `u128` (the 128 bits of a UUID) and instants as
//! `i64` microseconds since the Unix epoch.
pub mod adapters;
pub mod config;
pub mod db;
pub mod debug_text;
pub mod foreign;
pub mod json;
pub mod registry;
