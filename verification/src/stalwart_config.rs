//! The slice of the mail server's configuration file that the panel
//! reads and rewrites: how the server is told to use the panel's
//! database as its directory. The file editing itself happens outside;
//! these are the values written into it.

use vstd::prelude::*;
use vstd::string::StringExecFns;

use crate::config::Database;

pub mod sql;

verus! {

/// The `directory.sql` section: where the server's SQL directory points.
#[derive(Clone, Debug)]
pub struct SQLSettings {
    pub address: String,
    pub directory_type: String,
}

impl SQLSettings {
    /// Points the server's SQL directory at the panel's database.
    pub fn new(database: &Database) -> (r: Self)
        ensures
            r.directory_type@ == "sql"@,
            match database {
                Database::Mysql(s) => r.address@ == "mysql://"@ + s.user@ + ":"@ + s.password@
                    + "@"@ + s.host@ + "/"@ + s.database@,
                Database::Postgres(s) => r.address@ == "postgres://"@ + s.user@ + ":"@
                    + s.password@ + "@"@ + s.host@ + "/"@ + s.database@,
            },
    {
        SQLSettings { address: database.connection_url(), directory_type: String::from_str("sql") }
    }
}

/// The one query name the server's management section keeps.
#[derive(Clone, Debug)]
pub struct SQLQuery {
    pub name: String,
}

/// Which directory columns the server reads account fields from.
#[derive(Clone, Debug)]
pub struct SQLColumns {
    pub name: String,
    pub description: String,
    pub secret: String,
    pub email: String,
    pub quota: String,
    pub email_type: String,
}

} // verus!
