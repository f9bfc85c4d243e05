//! The per-request identity: the raw session the middleware attached, the
//! hydrated identity the resolver builds from it, and the capability
//! queries handlers ask of it.

use vstd::prelude::*;

use crate::email_address::EmailAddress;
use crate::error::WebsiteError;
use crate::groups::GroupPermissions;
use crate::password::Password;
use crate::session::Session;

verus! {

/// A panel user as hydrated from the relational store: the account row
/// joined with its group (whose permission flags decide capabilities) and
/// its primary email. `created` is epoch milliseconds.
#[derive(Clone, Debug)]
pub struct PanelUser {
    pub id: i64,
    pub name: String,
    pub username: String,
    pub password: Password,
    pub active: bool,
    pub backup_email: Option<EmailAddress>,
    pub group_id: i64,
    pub group_name: String,
    pub group_permissions: GroupPermissions,
    pub primary_email: Option<EmailAddress>,
    pub created: i64,
}

/// What the middleware attaches to a request: the bare session, before
/// any user data is loaded. Consumed at most once, by the resolver.
#[derive(Clone, Debug)]
pub enum AuthenticationRaw {
    Session(Session),
}

impl AuthenticationRaw {
    /// The session inside.
    pub open spec fn spec_session(&self) -> Session {
        match *self {
            AuthenticationRaw::Session(s) => s,
        }
    }

    /// Which user the attached session belongs to: the id the resolver
    /// hydrates.
    pub fn user_id(&self) -> (r: i64)
        ensures
            r == self.spec_session().user_id,
    {
        match self {
            AuthenticationRaw::Session(s) => s.user_id,
        }
    }
}

/// The hydrated identity: the full user record beside the session that
/// authenticated it. Built fresh for every request and never cached, so
/// permission changes take effect on the next request.
#[derive(Clone, Debug)]
pub enum Authentication {
    Session { user: PanelUser, session: Session },
}

/// The capability surface handlers query. Pure reads of the hydrated
/// permission flags: no implementation may touch storage.
pub trait Permissions {
    /// Whether accounts may be managed, as a spec-level fact.
    spec fn spec_can_manage_users(&self) -> bool;

    /// Whether the system may be managed, as a spec-level fact.
    spec fn spec_can_manage_system(&self) -> bool;

    fn can_manage_users(&self) -> (r: bool)
        ensures
            r == self.spec_can_manage_users(),
    ;

    fn can_manage_system(&self) -> (r: bool)
        ensures
            r == self.spec_can_manage_system(),
    ;
}

impl Permissions for Authentication {
    open spec fn spec_can_manage_users(&self) -> bool {
        match self {
            Authentication::Session { user, .. } => user.group_permissions.modify_accounts,
        }
    }

    open spec fn spec_can_manage_system(&self) -> bool {
        match self {
            Authentication::Session { user, .. } => user.group_permissions.manage_system,
        }
    }

    /// Exactly the user's group flag for managing accounts.
    fn can_manage_users(&self) -> (r: bool) {
        match self {
            Authentication::Session { user, .. } => user.group_permissions.modify_accounts,
        }
    }

    /// Exactly the user's group flag for managing the system.
    fn can_manage_system(&self) -> (r: bool) {
        match self {
            Authentication::Session { user, .. } => user.group_permissions.manage_system,
        }
    }
}

impl Authentication {
    /// The user record inside.
    pub open spec fn spec_user(&self) -> PanelUser {
        match *self {
            Authentication::Session { user, .. } => user,
        }
    }

    /// The session inside.
    pub open spec fn spec_session(&self) -> Session {
        match *self {
            Authentication::Session { session, .. } => session,
        }
    }

    /// The resolver's decision: a request with no attached session is
    /// unauthorized; a session whose user the store no longer knows (the
    /// account was deleted after the session was issued) is unauthorized;
    /// otherwise the identity is the found user beside the session.
    ///
    /// `user` is what the relational store returned for the attached
    /// session's user id; the store lookup itself happens outside.
    pub fn resolve(raw: Option<AuthenticationRaw>, user: Option<PanelUser>) -> (r: Result<
        Authentication,
        WebsiteError,
    >)
        ensures
            match r {
                Ok(a) => raw matches Some(AuthenticationRaw::Session(s)) && user matches Some(u)
                    && a == (Authentication::Session { user: u, session: s }),
                Err(e) => e is Unauthorized && (raw is None || user is None),
            },
    {
        match raw {
            Some(AuthenticationRaw::Session(session)) => match user {
                Some(user) => Ok(Authentication::Session { user, session }),
                None => Err(WebsiteError::Unauthorized),
            },
            None => Err(WebsiteError::Unauthorized),
        }
    }

    /// Gives up the user record inside, as handlers that only need the
    /// account take it.
    pub fn into_user(self) -> (r: PanelUser)
        ensures
            r == self.spec_user(),
    {
        match self {
            Authentication::Session { user, .. } => user,
        }
    }
}

} // verus!
