//! Group-derived permission flags attached to every panel user.

use vstd::prelude::*;

verus! {

/// The two capabilities a group can grant to its members.
#[derive(Clone, Copy, Debug, PartialEq, Eq, Structural)]
pub struct GroupPermissions {
    pub modify_accounts: bool,
    pub manage_system: bool,
}

impl Default for GroupPermissions {
    /// A fresh group grants nothing.
    fn default() -> (r: Self)
        ensures
            !r.modify_accounts,
            !r.manage_system,
    {
        Self { modify_accounts: false, manage_system: false }
    }
}

impl GroupPermissions {
    /// The administrator group: every capability granted.
    pub fn new_admin() -> (r: Self)
        ensures
            r.modify_accounts,
            r.manage_system,
    {
        Self { modify_accounts: true, manage_system: true }
    }
}

} // verus!
