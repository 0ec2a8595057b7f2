use vstd::prelude::*;
use crate::adapters::queue_publisher::QueueConfig;
use crate::config::config::Config;

verus! {

/// Whether the database connection uses TLS.
#[derive(Debug, Clone, Copy, PartialEq, Eq, Structural)]
pub enum SslMode {
    Disable,
    Require,
}

/// Where the Postgres database is and how to log in.
#[derive(Debug)]
pub struct DbConfig {
    pub db_path: String,
    pub db_port: String,
    pub db_username: String,
    pub db_password: String,
    pub db_database: String,
    pub db_ssl_mode: SslMode,
}

/// The database and queue settings that a configuration holds.
pub trait DbConfiguration {
    /// Whether `db` holds the database settings of this configuration.
    spec fn holds_db_config(&self, db: DbConfig) -> bool;

    /// Whether `queue` holds the queue settings of this configuration.
    spec fn holds_queue_config(&self, queue: QueueConfig) -> bool;

    fn get_db_config(&self) -> (r: DbConfig)
        ensures
            self.holds_db_config(r);

    fn get_queue_config(&self) -> (r: QueueConfig)
        ensures
            self.holds_queue_config(r);
}

/// Whether `db` holds the Postgres settings of `config`; TLS is required
/// exactly when the configuration asks for it.
pub open spec fn postgres_settings_of(config: Config, db: DbConfig) -> bool {
    &&& db.db_path@ == config.pg_url@
    &&& db.db_port@ == config.pg_port@
    &&& db.db_username@ == config.pg_username@
    &&& db.db_password@ == config.pg_password@
    &&& db.db_database@ == config.pg_database@
    &&& db.db_ssl_mode == if config.pg_database_use_tls { SslMode::Require } else { SslMode::Disable }
}

/// The Postgres settings of a configuration; TLS is required exactly when
/// the configuration asks for it.
pub fn postgres_config(config: &Config) -> (r: DbConfig)
    ensures
        r.db_path@ == config.pg_url@,
        r.db_port@ == config.pg_port@,
        r.db_username@ == config.pg_username@,
        r.db_password@ == config.pg_password@,
        r.db_database@ == config.pg_database@,
        r.db_ssl_mode == if config.pg_database_use_tls { SslMode::Require } else { SslMode::Disable },
{
    DbConfig {
        db_path: config.pg_url.clone(),
        db_port: config.pg_port.clone(),
        db_username: config.pg_username.clone(),
        db_password: config.pg_password.clone(),
        db_database: config.pg_database.clone(),
        db_ssl_mode: if config.pg_database_use_tls { SslMode::Require } else { SslMode::Disable },
    }
}

/// The queue settings of a configuration.
pub fn queue_config(config: &Config) -> (r: QueueConfig)
    ensures
        r.amqp_path@ == config.queue_amqp_path@,
        r.queue_name@ == config.queue_exchange_name@,
{
    QueueConfig { amqp_path: config.queue_amqp_path.clone(), queue_name: config.queue_exchange_name.clone() }
}

impl DbConfiguration for Config {
    open spec fn holds_db_config(&self, db: DbConfig) -> bool {
        postgres_settings_of(*self, db)
    }

    open spec fn holds_queue_config(&self, queue: QueueConfig) -> bool {
        queue.amqp_path@ == self.queue_amqp_path@ && queue.queue_name@ == self.queue_exchange_name@
    }

    /// The Postgres settings, as [`postgres_config`] gives them.
    fn get_db_config(&self) -> (r: DbConfig) {
        postgres_config(self)
    }

    /// The queue settings, as [`queue_config`] gives them.
    fn get_queue_config(&self) -> (r: QueueConfig) {
        queue_config(self)
    }
}

} // verus!
