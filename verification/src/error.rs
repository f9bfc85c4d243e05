//! The typed rejections the panel hands back to the HTTP layer.

use vstd::prelude::*;

use crate::store::SessionError;

verus! {

/// A request-level failure, each variant a class of HTTP response. The
/// HTTP layer turns these into status codes; nothing in this crate panics
/// on an expected condition.
#[derive(Clone, Debug)]
pub enum WebsiteError {
    /// The request carries no usable identity.
    Unauthorized,
    /// The request itself is at fault; the text says how.
    BadRequest(String),
    /// The named thing does not exist.
    NotFound,
    /// The session store failed.
    Session(SessionError),
    /// A password could not be hashed.
    UnableToHashPassword,
}

} // verus!
