//! The authentication middleware's decision logic: how one inbound
//! request's credential is extracted and resolved to a session.
//!
//! The surrounding HTTP layer hands in the request's shape (preflight or
//! not, the `Authorization` header, the `session` cookie) and carries out
//! the outcome: pass the request through, reject it, or attach the found
//! session before invoking the inner service.

use vstd::prelude::*;
use vstd::string::StringExecFns;

use crate::session::{Session, SessionManager};
use crate::store::{SessionError, SessionRecord};
use crate::text::{find_char, str_eq};

verus! {

/// The `Authorization` header of a request, as the HTTP layer saw it.
#[derive(Clone, Debug)]
pub enum AuthorizationHeader {
    /// The request carries no `Authorization` header.
    Absent,
    /// The header is present but is not a readable string.
    Unreadable,
    /// The header's text.
    Value(String),
}

/// What the middleware decides for one request.
#[derive(Clone, Debug)]
pub enum AuthOutcome {
    /// A CORS preflight: pass the request through untouched.
    Passthrough,
    /// The `Authorization` header could not be parsed: reject the request
    /// as a client fault; the inner service is never invoked.
    BadHeader,
    /// The `Authorization` header names a scheme other than `session`:
    /// reject as a client fault; the inner service is never invoked.
    UnsupportedScheme,
    /// The session store failed: reject as a server fault.
    StoreError(SessionError),
    /// The credential named a stored session: attach it, then invoke the
    /// inner service.
    Authenticated(Session),
    /// No usable credential, or the credential names no stored session:
    /// the request proceeds unauthenticated.
    Anonymous,
}

/// Position `i` holds the only space of `h`.
pub open spec fn one_space_at(h: Seq<char>, i: int) -> bool {
    0 <= i < h.len() && h[i] == ' ' && forall|j: int|
        0 <= j < h.len() && j != i ==> h[j] != ' '
}

/// What parsing an `Authorization` header value must yield: the header is
/// accepted exactly when it reads `session <token>` with a single space,
/// and the token is everything after that space.
pub open spec fn header_parse_ok(h: Seq<char>, token: Seq<char>) -> bool {
    exists|i: int|
        #[trigger] one_space_at(h, i) && h.subrange(0, i) == "session"@ && token == h.subrange(
            i + 1,
            h.len() as int,
        )
}

/// Splits an `Authorization` header value into scheme and token. Only the
/// `session` scheme is supported: the header is accepted exactly when it
/// is `session <token>` with a single space. A header without exactly one
/// space is malformed; any other scheme is unsupported.
pub fn parse_authorization_header(header: &str) -> (r: Result<String, AuthOutcome>)
    ensures
        match r {
            Ok(token) => header_parse_ok(header@, token@),
            Err(AuthOutcome::BadHeader) => forall|i: int| !one_space_at(header@, i),
            Err(AuthOutcome::UnsupportedScheme) => exists|i: int|
                #[trigger] one_space_at(header@, i) && header@.subrange(0, i) != "session"@,
            Err(_) => false,
        },
{
    let len = header.unicode_len();
    let space = match find_char(header, ' ') {
        Some(i) => i,
        None => {
            return Err(AuthOutcome::BadHeader);
        },
    };
    let rest = header.substring_char(space + 1, len);
    match find_char(rest, ' ') {
        Some(j) => {
            proof {
                assert(header@[space + 1 + j] == ' ');
                assert forall|i: int| !one_space_at(header@, i) by {
                    if i == space {
                        assert(header@[space + 1 + j] == ' ');
                    } else if 0 <= i < header@.len() {
                        assert(header@[space as int] == ' ');
                    }
                }
            }
            Err(AuthOutcome::BadHeader)
        },
        None => {
            proof {
                assert forall|j: int|
                    0 <= j < header@.len() && j != space implies header@[j] != ' ' by {
                    if j > space {
                        assert(rest@[j - space - 1] == header@[j]);
                    }
                }
                assert(one_space_at(header@, space as int));
            }
            let scheme = header.substring_char(0, space);
            if str_eq(scheme, "session") {
                Ok(String::from_str(rest))
            } else {
                Err(AuthOutcome::UnsupportedScheme)
            }
        },
    }
}

/// What resolving one candidate token against the store must yield:
/// a stored session is attached with all its fields intact, an unknown
/// token leaves the request anonymous, and only a store failure may end
/// in a server fault.
pub open spec fn token_outcome(
    sessions: Map<Seq<char>, SessionRecord>,
    token: Seq<char>,
    r: AuthOutcome,
) -> bool {
    match r {
        AuthOutcome::Authenticated(s) => sessions.contains_key(token) && s.session_id@ == token
            && s.record() == sessions[token],
        AuthOutcome::Anonymous => !sessions.contains_key(token),
        AuthOutcome::StoreError(_) => true,
        _ => false,
    }
}

/// Resolves one candidate token: looks it up in the session store. A hit
/// attaches the session, a miss leaves the request anonymous (the inner
/// service still runs), and a store failure is a server fault.
pub fn handle_session(manager: &SessionManager, token: &str) -> (r: AuthOutcome)
    ensures
        token_outcome(manager.sessions(), token@, r),
{
    match manager.get_session(token) {
        Ok(Some(session)) => AuthOutcome::Authenticated(session),
        Ok(None) => AuthOutcome::Anonymous,
        Err(e) => AuthOutcome::StoreError(e),
    }
}

/// What deciding a request that carries an `Authorization` header value
/// `h` must yield: a malformed header or unsupported scheme is a client
/// fault, and a well-formed `session <token>` header is resolved against
/// the store.
pub open spec fn header_decision(
    sessions: Map<Seq<char>, SessionRecord>,
    h: Seq<char>,
    r: AuthOutcome,
) -> bool {
    match r {
        AuthOutcome::BadHeader => forall|i: int| !one_space_at(h, i),
        AuthOutcome::UnsupportedScheme => exists|i: int|
            #[trigger] one_space_at(h, i) && h.subrange(0, i) != "session"@,
        _ => exists|token: Seq<char>|
            #[trigger] header_parse_ok(h, token) && token_outcome(sessions, token, r),
    }
}

/// The middleware's whole decision for one request, as a relation between
/// what the HTTP layer saw and the outcome.
pub open spec fn middleware_spec(
    sessions: Map<Seq<char>, SessionRecord>,
    is_preflight: bool,
    authorization: AuthorizationHeader,
    session_cookie: Option<String>,
    r: AuthOutcome,
) -> bool {
    if is_preflight {
        r is Passthrough
    } else {
        match authorization {
            AuthorizationHeader::Unreadable => r is BadHeader,
            AuthorizationHeader::Value(h) => header_decision(sessions, h@, r),
            AuthorizationHeader::Absent => match session_cookie {
                Some(c) => token_outcome(sessions, c@, r),
                None => r is Anonymous,
            },
        }
    }
}

/// A request bearing `Authorization: session <token>` where `<token>`
/// names a stored session is attached exactly that session — never
/// rejected as a client fault, never passed on anonymous; only a store
/// fault can stand in the way.
pub proof fn lemma_live_token_is_attached(
    sessions: Map<Seq<char>, SessionRecord>,
    header: String,
    token: Seq<char>,
    session_cookie: Option<String>,
    r: AuthOutcome,
)
    requires
        header_parse_ok(header@, token),
        sessions.contains_key(token),
        middleware_spec(sessions, false, AuthorizationHeader::Value(header), session_cookie, r),
    ensures
        r is Authenticated || r is StoreError,
        r matches AuthOutcome::Authenticated(s) ==> s.session_id@ == token && s.record()
            == sessions[token],
{
    let h = header@;
    assert(header_decision(sessions, h, r));
    let i = choose|i: int|
        #[trigger] one_space_at(h, i) && h.subrange(0, i) == "session"@ && token == h.subrange(
            i + 1,
            h.len() as int,
        );
    match r {
        AuthOutcome::BadHeader => {
            assert(one_space_at(h, i));
        },
        AuthOutcome::UnsupportedScheme => {
            let j = choose|j: int| #[trigger] one_space_at(h, j) && h.subrange(0, j) != "session"@;
            assert(h[i] == ' ');
            assert(j == i);
        },
        _ => {
            let other = choose|other: Seq<char>|
                #[trigger] header_parse_ok(h, other) && token_outcome(sessions, other, r);
            let j = choose|j: int|
                #[trigger] one_space_at(h, j) && h.subrange(0, j) == "session"@ && other
                    == h.subrange(j + 1, h.len() as int);
            assert(h[i] == ' ');
            assert(j == i);
            assert(other == token);
        },
    }
}

/// Decides one request, per the middleware's state machine: a preflight
/// passes through untouched; else the `Authorization` header is consulted
/// first and must be `session <token>` if present; else the `session`
/// cookie supplies the candidate token; a candidate is resolved against
/// the store; a request without a credential proceeds anonymously.
pub fn handle_authentication(
    manager: &SessionManager,
    is_preflight: bool,
    authorization: &AuthorizationHeader,
    session_cookie: &Option<String>,
) -> (r: AuthOutcome)
    ensures
        middleware_spec(manager.sessions(), is_preflight, *authorization, *session_cookie, r),
{
    if is_preflight {
        return AuthOutcome::Passthrough;
    }
    match authorization {
        AuthorizationHeader::Unreadable => AuthOutcome::BadHeader,
        AuthorizationHeader::Value(h) => match parse_authorization_header(h.as_str()) {
            Ok(token) => {
                let outcome = handle_session(manager, token.as_str());
                proof {
                    assert(header_parse_ok(h@, token@) && token_outcome(
                        manager.sessions(),
                        token@,
                        outcome,
                    ));
                }
                outcome
            },
            Err(rejection) => rejection,
        },
        AuthorizationHeader::Absent => match session_cookie {
            Some(cookie) => handle_session(manager, cookie.as_str()),
            None => AuthOutcome::Anonymous,
        },
    }
}

} // verus!
