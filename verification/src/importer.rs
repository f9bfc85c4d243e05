//! The shapes an old directory database is read into before it is
//! imported into the panel's own schema. The reading itself is database
//! I/O and happens outside; these rows are what it hands over.

use vstd::prelude::*;

verus! {

/// Which kind of database the import writes into.
#[derive(Clone, Copy, Debug, PartialEq, Eq, Structural)]
pub enum DatabaseType {
    Mysql,
    Postgres,
}

/// One row of the old accounts table.
#[derive(Clone, Debug)]
pub struct OldAccount {
    pub name: String,
    pub secret: String,
    pub description: String,
    pub account_type: String,
    pub quota: i64,
    pub active: bool,
}

/// One row of the old email table.
#[derive(Clone, Debug)]
pub struct OldEmail {
    pub name: String,
    pub address: String,
    pub account_type: String,
}

/// Everything read out of the old database, ready to import.
#[derive(Clone, Debug)]
pub struct Import {
    pub accounts: Vec<OldAccount>,
    pub group_members: Vec<(String, String)>,
    pub emails: Vec<OldEmail>,
}

} // verus!
