use vstd::prelude::*;
use crate::db::config::DbConfig;

verus! {

/// Why the MongoDB client could not be made.
#[derive(Debug)]
pub enum DbError {
    ConnectError(String),
}

/// The MongoDB connection string for a configuration.
pub fn mongodb_uri(db_config: &DbConfig) -> (r: String)
    ensures
        r@ == "mongodb+srv://"@ + db_config.db_username@ + ":"@ + db_config.db_password@ + "@"@
            + db_config.db_path@ + "/?retryWrites=true&w=majority"@,
{
    let mut uri = String::from_str("mongodb+srv://");
    uri.append(db_config.db_username.as_str());
    uri.append(":");
    uri.append(db_config.db_password.as_str());
    uri.append("@");
    uri.append(db_config.db_path.as_str());
    uri.append("/?retryWrites=true&w=majority");
    uri
}

} // verus!
