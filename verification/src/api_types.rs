//! The request payloads the panel's handlers take, as plain values. The
//! HTTP layer decodes forms and JSON into these and hands them over.

use vstd::prelude::*;

use crate::email_address::EmailAddress;

verus! {

/// Query for the account list: active accounts only, or all of them.
#[derive(Clone, Copy, Debug)]
pub struct List {
    pub active: bool,
}

/// Query for one account: whether its email addresses come along.
#[derive(Clone, Copy, Debug)]
pub struct GetUser {
    pub include_emails: bool,
}

/// An administrator forces a password change; optionally an address to
/// send the reset link to.
#[derive(Clone, Debug)]
pub struct PasswordChange {
    pub send_email_to: Option<EmailAddress>,
}

/// An administrator sets an account's password outright.
#[derive(Clone, Debug)]
pub struct NewPassword {
    pub password: String,
}

/// Options for deleting an email address from an account.
#[derive(Clone, Copy, Debug)]
pub struct EmailAddressRemove {
    pub purge_emails_to_address_in_account: bool,
}

/// A user changes their own password, proving the old one.
#[derive(Clone, Debug)]
pub struct ChangePassword {
    pub old_password: String,
    pub new_password: String,
}

/// A user sets or clears their backup address.
#[derive(Clone, Debug)]
pub struct BackupEmail {
    pub backup_email: Option<EmailAddress>,
}

} // verus!
