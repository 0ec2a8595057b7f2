use vstd::prelude::*;

verus! {

/// The settings of the engine, as the environment gives them.
#[derive(Debug)]
pub struct Config {
    pub pg_url: String,
    pub pg_port: String,
    pub pg_username: String,
    pub pg_password: String,
    pub pg_database: String,
    pub pg_database_use_tls: bool,
    pub app_port: u16,
    pub app_host: String,
    pub queue_amqp_path: String,
    pub queue_exchange_name: String,
    pub mongodb_url: String,
    pub mongodb_username: String,
    pub mongodb_password: String,
    pub mongodb_database: String,
}

} // verus!
