//! Configuration records handed to the subsystems at process start.
//!
//! Durations are held as plain integers, in the unit their serialized form
//! uses: seconds unless a field says otherwise.

use vstd::prelude::*;
use vstd::string::StringExecFns;

use crate::password::PasswordType;

verus! {

/// Connection settings for a MySQL directory database.
#[derive(Clone, Debug)]
pub struct MysqlSettings {
    pub user: String,
    pub password: String,
    pub host: String,
    pub database: String,
}

impl MysqlSettings {
    /// The connection URL these settings describe.
    pub fn connection_url(&self) -> (r: String)
        ensures
            r@ == "mysql://"@ + self.user@ + ":"@ + self.password@ + "@"@ + self.host@ + "/"@
                + self.database@,
    {
        let mut url = String::from_str("mysql://");
        url.append(self.user.as_str());
        url.append(":");
        url.append(self.password.as_str());
        url.append("@");
        url.append(self.host.as_str());
        url.append("/");
        url.append(self.database.as_str());
        url
    }
}

/// Connection settings for a PostgreSQL directory database.
#[derive(Clone, Debug)]
pub struct PostgresSettings {
    pub user: String,
    pub password: String,
    pub host: String,
    pub database: String,
}

impl PostgresSettings {
    /// The connection URL these settings describe.
    pub fn connection_url(&self) -> (r: String)
        ensures
            r@ == "postgres://"@ + self.user@ + ":"@ + self.password@ + "@"@ + self.host@ + "/"@
                + self.database@,
    {
        let mut url = String::from_str("postgres://");
        url.append(self.user.as_str());
        url.append(":");
        url.append(self.password.as_str());
        url.append("@");
        url.append(self.host.as_str());
        url.append("/");
        url.append(self.database.as_str());
        url
    }
}

/// Which relational database holds the directory, with its settings.
#[derive(Clone, Debug)]
pub enum Database {
    Mysql(MysqlSettings),
    Postgres(PostgresSettings),
}

impl Database {
    /// The settings a local test database is reached under.
    pub fn test() -> (r: Self)
        ensures
            r matches Database::Postgres(s) && s.user@ == "postgres"@ && s.password@
                == "postgres"@ && s.host@ == "localhost:5432"@ && s.database@
                == "stalwart-panel-test"@,
    {
        Database::Postgres(
            PostgresSettings {
                user: String::from_str("postgres"),
                password: String::from_str("postgres"),
                host: String::from_str("localhost:5432"),
                database: String::from_str("stalwart-panel-test"),
            },
        )
    }

    /// The connection URL for whichever database is configured.
    pub fn connection_url(&self) -> (r: String)
        ensures
            match self {
                Database::Mysql(s) => r@ == "mysql://"@ + s.user@ + ":"@ + s.password@ + "@"@
                    + s.host@ + "/"@ + s.database@,
                Database::Postgres(s) => r@ == "postgres://"@ + s.user@ + ":"@ + s.password@ + "@"@
                    + s.host@ + "/"@ + s.database@,
            },
    {
        match self {
            Database::Mysql(s) => s.connection_url(),
            Database::Postgres(s) => s.connection_url(),
        }
    }
}

/// How the outbound SMTP connection is secured.
#[derive(Clone, Copy, Debug, PartialEq, Eq, Structural)]
pub enum EmailEncryption {
    NONE,
    StartTLS,
    TLS,
}

impl Default for EmailEncryption {
    fn default() -> (r: Self)
        ensures
            r is NONE,
    {
        EmailEncryption::NONE
    }
}

/// Where and how the panel sends its own mail (reset emails and the
/// like): yes, the mail-server management panel needs mail settings.
#[derive(Clone, Debug)]
pub struct EmailSetting {
    pub username: String,
    pub password: String,
    pub host: String,
    pub encryption: EmailEncryption,
    pub from: String,
    pub reply_to: Option<String>,
}

/// Where the TLS key material for the panel's own listener sits.
#[derive(Clone, Debug)]
pub struct TlsConfig {
    pub private_key: String,
    pub certificate_chain: String,
}

/// The manager's own settings beside whatever configuration the platform
/// connector needs; edited at runtime, so it lives in its own file.
#[derive(Clone, Debug)]
pub struct StalwartManagerConfig<Config> {
    pub stalwart_config: String,
    pub tracing_enabled: bool,
    pub manager_config: Config,
}

/// How the session manager is to behave: how long a session lives, how
/// often the cleanup sweep runs (both in seconds), and where the session
/// database file sits.
#[derive(Clone, Debug)]
pub struct SessionManager {
    pub lifespan: i64,
    pub cleanup_interval: i64,
    pub dev: bool,
    pub database_location: String,
}

impl Default for SessionManager {
    /// One-day sessions, swept every hour, stored beside the binary.
    fn default() -> (r: Self)
        ensures
            r.lifespan == 86400,
            r.cleanup_interval == 3600,
            !r.dev,
            r.database_location@ == "sessions.redb"@,
    {
        Self {
            lifespan: 86400,
            cleanup_interval: 3600,
            dev: false,
            database_location: String::from_str("sessions.redb"),
        }
    }
}

/// Policy for forced password rotation. A zero `how_often_to_force_reset`
/// (held in days) means passwords are never forced to rotate.
#[derive(Clone, Copy, Debug, PartialEq, Eq, Structural)]
pub struct PasswordReset {
    pub how_often_to_force_reset: i64,
    pub reset_service_interval: i64,
}

impl Default for PasswordReset {
    /// Never force a rotation; the reset service wakes daily.
    fn default() -> (r: Self)
        ensures
            r.how_often_to_force_reset == 0,
            r.reset_service_interval == 86400,
    {
        Self { how_often_to_force_reset: 0, reset_service_interval: 86400 }
    }
}

/// How many request workers serve the panel when nothing else is asked.
pub fn default_workers() -> (r: usize)
    ensures
        r == 2,
{
    2
}

/// Everything the panel reads at start-up.
#[derive(Clone, Debug)]
pub struct Settings {
    pub bind_address: String,
    pub number_of_workers: usize,
    pub database: Database,
    pub tls: Option<TlsConfig>,
    pub email: EmailSetting,
    pub postmaster_address: String,
    pub default_group: i64,
    pub root_group: i64,
    pub password_hash_for_new_passwords: PasswordType,
    pub require_password_reset: PasswordReset,
    pub session_manager: SessionManager,
    pub is_https: bool,
}

impl Settings {
    /// Settings with everything not asked for at its default.
    pub fn new(database: Database, postmaster_address: String, email: EmailSetting) -> (r: Self)
        ensures
            r.bind_address@ == "0.0.0.0:5312"@,
            r.number_of_workers == 2,
            r.database == database,
            r.tls is None,
            r.email == email,
            r.postmaster_address == postmaster_address,
            r.default_group == 1,
            r.root_group == 2,
            r.password_hash_for_new_passwords is Argon2,
            !r.is_https,
    {
        Self {
            bind_address: String::from_str("0.0.0.0:5312"),
            number_of_workers: 2,
            database,
            tls: None,
            email,
            postmaster_address,
            default_group: 1,
            root_group: 2,
            password_hash_for_new_passwords: PasswordType::Argon2,
            require_password_reset: Default::default(),
            session_manager: Default::default(),
            is_https: false,
        }
    }
}

} // verus!
