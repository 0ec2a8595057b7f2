pub mod client;
pub mod config;
pub mod models;
pub mod repos;
pub mod services;
