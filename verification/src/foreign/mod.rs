//! The calls into code that is not verified here: std text functions,
//! `uuid`, `chrono` and the `rhai` script engine. Each item states what the
//! outside code is trusted to do.
pub mod dates;
pub mod engine;
pub mod ids;
pub mod text;
