pub mod client;
pub mod config;
