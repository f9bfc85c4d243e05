//! The SQL directory queries written into the mail server's
//! configuration: how the server asks the panel's database about
//! accounts, groups and addresses.

use vstd::prelude::*;
use vstd::string::StringExecFns;

verus! {

/// Connection-pool limits for the server's directory connection.
#[derive(Clone, Debug)]
pub struct SQLOptions {
    pub max_connections: u32,
    pub min_connections: u32,
    pub idle_timeout: String,
}

/// How long an idle directory connection is kept when the configuration
/// does not say.
pub fn default_idle_timeout() -> (r: String)
    ensures
        r@ == "10m"@,
{
    String::from_str("10m")
}

/// Directory cache sizing.
#[derive(Clone, Debug)]
pub struct SQLCache {
    pub entries: u32,
    pub ttl: TTL,
}

/// How long cached directory answers live, split by hit and miss.
#[derive(Clone, Debug)]
pub struct TTL {
    pub positive: String,
    pub negative: String,
}

impl Default for TTL {
    /// An hour for hits, ten minutes for misses.
    fn default() -> (r: Self)
        ensures
            r.positive@ == "1h"@,
            r.negative@ == "10m"@,
    {
        TTL { positive: String::from_str("1h"), negative: String::from_str("10m") }
    }
}

/// The seven directory queries the server runs against the panel's
/// database, in the placeholder style of its SQL dialect.
#[derive(Clone, Debug)]
pub struct SQLQuery {
    pub name: String,
    pub members: String,
    pub recipients: String,
    pub emails: String,
    pub verify: String,
    pub expand: String,
    pub domains: String,
}

impl SQLQuery {
    /// The queries in PostgreSQL's `$n` placeholder style.
    pub fn new_postgres() -> (r: Self)
        ensures
            r.name@
                == "SELECT username, type, password, description, quota FROM accounts WHERE name = $1 AND active = true"@,
            r.members@
                == "SELECT g.group_name FROM groups AS g INNER JOIN accounts as a ON g.id = a.group_id AND a.username = $1"@,
            r.recipients@
                == "SELECT a.username FROM accounts as a INNER JOIN emails as e ON a.id = e.account AND e.email = $1"@,
            r.emails@
                == "SELECT e.email FROM emails as e INNER JOIN accounts as a ON e.account = a.id AND a.username = $1"@,
            r.verify@
                == "SELECT email FROM emails WHERE email LIKE '%' || $1 || '%' AND type = 'primary' ORDER BY email LIMIT 5"@,
            r.expand@
                == "SELECT p.email FROM emails AS p JOIN emails AS l ON p.name = l.name WHERE p.type = 'primary' AND l.email = $1 AND l.type = 'list' ORDER BY p.email LIMIT 50"@,
            r.domains@ == "SELECT 1 FROM emails WHERE email LIKE '%@' || $1 LIMIT 1"@,
    {
        Self {
            name: String::from_str(
                "SELECT username, type, password, description, quota FROM accounts WHERE name = $1 AND active = true",
            ),
            members: String::from_str(
                "SELECT g.group_name FROM groups AS g INNER JOIN accounts as a ON g.id = a.group_id AND a.username = $1",
            ),
            recipients: String::from_str(
                "SELECT a.username FROM accounts as a INNER JOIN emails as e ON a.id = e.account AND e.email = $1",
            ),
            emails: String::from_str(
                "SELECT e.email FROM emails as e INNER JOIN accounts as a ON e.account = a.id AND a.username = $1",
            ),
            verify: String::from_str(
                "SELECT email FROM emails WHERE email LIKE '%' || $1 || '%' AND type = 'primary' ORDER BY email LIMIT 5",
            ),
            expand: String::from_str(
                "SELECT p.email FROM emails AS p JOIN emails AS l ON p.name = l.name WHERE p.type = 'primary' AND l.email = $1 AND l.type = 'list' ORDER BY p.email LIMIT 50",
            ),
            domains: String::from_str("SELECT 1 FROM emails WHERE email LIKE '%@' || $1 LIMIT 1"),
        }
    }

    /// The queries in MySQL's `?` placeholder style.
    pub fn new_mysql() -> (r: Self)
        ensures
            r.name@
                == "SELECT username, type, password, description, quota FROM accounts WHERE name = ? AND active = true"@,
            r.members@
                == "SELECT g.group_name FROM groups AS g INNER JOIN accounts as a ON g.id = a.group_id AND a.username = ?"@,
            r.recipients@
                == "SELECT a.username FROM accounts as a INNER JOIN emails as e ON a.id = e.account AND e.email = ?"@,
            r.emails@
                == "SELECT e.email FROM emails as e INNER JOIN accounts as a ON e.account = a.id AND a.username = ?"@,
            r.verify@
                == "SELECT email FROM emails WHERE email LIKE '%' || ? || '%' AND type = 'primary' ORDER BY email LIMIT 5"@,
            r.expand@
                == "SELECT p.email FROM emails AS p JOIN emails AS l ON p.name = l.name WHERE p.type = 'primary' AND l.email = ? AND l.type = 'list' ORDER BY p.email LIMIT 50"@,
            r.domains@ == "SELECT 1 FROM emails WHERE email LIKE '%@' || ? LIMIT 1"@,
    {
        Self {
            name: String::from_str(
                "SELECT username, type, password, description, quota FROM accounts WHERE name = ? AND active = true",
            ),
            members: String::from_str(
                "SELECT g.group_name FROM groups AS g INNER JOIN accounts as a ON g.id = a.group_id AND a.username = ?",
            ),
            recipients: String::from_str(
                "SELECT a.username FROM accounts as a INNER JOIN emails as e ON a.id = e.account AND e.email = ?",
            ),
            emails: String::from_str(
                "SELECT e.email FROM emails as e INNER JOIN accounts as a ON e.account = a.id AND a.username = ?",
            ),
            verify: String::from_str(
                "SELECT email FROM emails WHERE email LIKE '%' || ? || '%' AND type = 'primary' ORDER BY email LIMIT 5",
            ),
            expand: String::from_str(
                "SELECT p.email FROM emails AS p JOIN emails AS l ON p.name = l.name WHERE p.type = 'primary' AND l.email = ? AND l.type = 'list' ORDER BY p.email LIMIT 50",
            ),
            domains: String::from_str("SELECT 1 FROM emails WHERE email LIKE '%@' || ? LIMIT 1"),
        }
    }
}

/// Which directory columns the server reads account fields from.
#[derive(Clone, Debug)]
pub struct SQLColumns {
    pub name: String,
    pub description: String,
    pub secret: String,
    pub email: String,
    pub quota: String,
    pub email_type: String,
}

impl Default for SQLColumns {
    /// The columns of the panel's own schema.
    fn default() -> (r: Self)
        ensures
            r.name@ == "username"@,
            r.description@ == "description"@,
            r.secret@ == "password"@,
            r.email@ == "email"@,
            r.quota@ == "quota"@,
            r.email_type@ == "account_type"@,
    {
        Self {
            name: String::from_str("username"),
            description: String::from_str("description"),
            secret: String::from_str("password"),
            email: String::from_str("email"),
            quota: String::from_str("quota"),
            email_type: String::from_str("account_type"),
        }
    }
}

} // verus!
