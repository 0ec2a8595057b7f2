use vstd::prelude::*;
use crate::config::config::Config;

verus! {

/// Where the MongoDB database is and how to log in.
#[derive(Debug)]
pub struct DbConfig {
    pub db_path: String,
    pub db_username: String,
    pub db_password: String,
    pub db_database: String,
}

/// The MongoDB settings that a configuration holds.
pub trait DbConfiguration {
    fn get_db_config(&self) -> DbConfig;
}

impl Config {
    /// The MongoDB settings.
    pub fn get_db_config(&self) -> (r: DbConfig)
        ensures
            r.db_path@ == self.mongodb_url@,
            r.db_username@ == self.mongodb_username@,
            r.db_password@ == self.mongodb_password@,
            r.db_database@ == self.mongodb_database@,
    {
        DbConfig {
            db_path: self.mongodb_url.clone(),
            db_username: self.mongodb_username.clone(),
            db_password: self.mongodb_password.clone(),
            db_database: self.mongodb_database.clone(),
        }
    }
}

} // verus!
