//! The password-reset workflow: issuing single-use tokens, sending the
//! reset email, and validating and consuming tokens on submission.
//!
//! Outstanding requests live in memory only and die with the process: a
//! redeploy deliberately invalidates every outstanding reset link.

use vstd::prelude::*;
use vstd::string::StringExecFns;

use crate::email_address::EmailAddress;
use crate::email_service::{Email, EmailAccess, EmailDebug, TemplateValue};
use crate::headers::Origin;
use crate::random::{fresh_rng, sample_alphanumeric};
use crate::text::is_alphanumeric_char;

verus! {

/// The number of characters in a reset token.
pub open spec fn reset_token_len() -> int {
    36
}

/// A well-formed reset token: a long alphanumeric string.
pub open spec fn is_reset_token(s: Seq<char>) -> bool {
    s.len() == reset_token_len() && forall|i: int|
        0 <= i < s.len() ==> is_alphanumeric_char(#[trigger] s[i])
}

/// The reset email: it carries the token back to the account owner,
/// pointing at the origin the request came through.
#[derive(Clone, Debug)]
pub struct PasswordResetEmail {
    pub token: String,
    pub panel_origin: Origin,
    pub username: String,
    pub required: bool,
}

impl Email for PasswordResetEmail {
    open spec fn spec_template_html() -> Seq<char> {
        "password_reset.html"@
    }

    open spec fn spec_template_txt() -> Seq<char> {
        "password_reset.txt"@
    }

    open spec fn spec_subject() -> Seq<char> {
        "Password Reset"@
    }

    open spec fn spec_debug_to(&self) -> Seq<char> {
        self.username@
    }

    open spec fn spec_values(&self) -> Seq<(Seq<char>, TemplateValue)> {
        seq![
            ("token"@, TemplateValue::Text(self.token)),
            ("panel_origin"@, TemplateValue::Text(self.panel_origin.url)),
            ("username"@, TemplateValue::Text(self.username)),
            ("required"@, TemplateValue::Flag(self.required)),
        ]
    }

    fn template_html() -> (r: String) {
        String::from_str("password_reset.html")
    }

    fn template_txt() -> (r: String) {
        String::from_str("password_reset.txt")
    }

    fn subject() -> (r: String) {
        String::from_str("Password Reset")
    }

    fn debug_info(self) -> (r: EmailDebug) {
        EmailDebug { to: self.username, subject: Self::subject() }
    }

    fn template_values(&self) -> (r: Vec<(String, TemplateValue)>) {
        let mut values: Vec<(String, TemplateValue)> = Vec::new();
        values.push((String::from_str("token"), TemplateValue::Text(self.token.clone())));
        values.push(
            (String::from_str("panel_origin"), TemplateValue::Text(self.panel_origin.url.clone())),
        );
        values.push((String::from_str("username"), TemplateValue::Text(self.username.clone())));
        values.push((String::from_str("required"), TemplateValue::Flag(self.required)));
        values
    }
}

/// One outstanding reset request: which account it is for, the token that
/// proves it, and when it was issued (epoch milliseconds; recorded, not
/// checked — tokens outlive nothing but the process).
#[derive(Debug)]
pub struct PasswordResetRequest {
    pub account_id: i64,
    pub token: String,
    pub created: i64,
}

impl Clone for PasswordResetRequest {
    fn clone(&self) -> (r: Self)
        ensures
            r == *self,
    {
        PasswordResetRequest {
            account_id: self.account_id,
            token: self.token.clone(),
            created: self.created,
        }
    }
}

impl PartialEq for PasswordResetRequest {
    fn eq(&self, other: &PasswordResetRequest) -> (r: bool) {
        self.account_id == other.account_id && crate::text::str_eq(
            self.token.as_str(),
            other.token.as_str(),
        ) && self.created == other.created
    }
}

impl vstd::std_specs::cmp::PartialEqSpecImpl for PasswordResetRequest {
    open spec fn obeys_eq_spec() -> bool {
        true
    }

    open spec fn eq_spec(&self, other: &PasswordResetRequest) -> bool {
        self.account_id == other.account_id && self.token@ == other.token@ && self.created
            == other.created
    }
}

/// Issues reset tokens, hands the reset email to the dispatch worker, and
/// validates and consumes tokens on submission. Holds the outstanding
/// requests keyed by token; at most one request per token, while several
/// may point at one account.
pub struct PasswordResetManager {
    pub email_access: EmailAccess,
    requests: Vec<PasswordResetRequest>,
}

impl PasswordResetManager {
    /// The structural invariant: no two outstanding requests share a
    /// token, and each request's stored token is well formed as a key.
    pub closed spec fn wf(&self) -> bool {
        forall|a: int, b: int|
            0 <= a < b < self.requests@.len() ==> (#[trigger] self.requests@[a]).token@ != (
            #[trigger] self.requests@[b]).token@
    }

    /// Every email this manager has submitted, oldest first.
    pub closed spec fn spec_email_history(&self) -> Seq<crate::email_service::EmailRequest> {
        self.email_access.spec_history()
    }

    /// The outstanding requests, keyed by token.
    pub closed spec fn spec_requests(&self) -> Map<Seq<char>, PasswordResetRequest> {
        Map::new(
            |k: Seq<char>|
                exists|i: int|
                    0 <= i < self.requests@.len() && (#[trigger] self.requests@[i]).token@ == k,
            |k: Seq<char>|
                self.requests@[choose|i: int|
                    0 <= i < self.requests@.len() && (#[trigger] self.requests@[i]).token@ == k],
        )
    }

    /// A manager with no outstanding requests, submitting its emails
    /// through the given handle.
    pub fn new(email_access: EmailAccess) -> (r: Self)
        ensures
            r.wf(),
            r.spec_requests() == Map::<Seq<char>, PasswordResetRequest>::empty(),
            r.spec_email_history() == email_access.spec_history(),
    {
        let r = PasswordResetManager { email_access, requests: Vec::new() };
        proof {
            assert(r.spec_requests() =~= Map::<Seq<char>, PasswordResetRequest>::empty());
        }
        r
    }

    /// Draws a fresh 36-character token. No collision check is made
    /// against the outstanding requests: overwriting on a freak collision
    /// merely orphans the older request, which dies with the process.
    fn generate_token() -> (r: String)
        ensures
            is_reset_token(r@),
    {
        let mut rng = fresh_rng();
        sample_alphanumeric(&mut rng, 36)
    }

    /// Issues a reset request for `id` at `now`: draws a fresh token,
    /// submits the reset email (naming the token, the user and the origin
    /// the request came through) to the dispatch queue, and then records
    /// the request under its token, replacing any request that token had.
    /// The email is submitted whether or not the queue takes it: a failed
    /// submission only denies delivery, the token is still live. Returns
    /// the token.
    pub fn request(
        &mut self,
        username: String,
        id: i64,
        email: EmailAddress,
        panel_origin: Origin,
        required: bool,
        now: i64,
    ) -> (r: String)
        requires
            old(self).wf(),
        ensures
            final(self).wf(),
            is_reset_token(r@),
            final(self).spec_requests() == old(self).spec_requests().insert(
                r@,
                PasswordResetRequest { account_id: id, token: r, created: now },
            ),
            final(self).spec_email_history().len() == old(self).spec_email_history().len() + 1,
            final(self).spec_email_history().drop_last() == old(self).spec_email_history(),
            ({
                let sent = final(self).spec_email_history().last();
                &&& sent.message.to == email
                &&& crate::email_service::values_match(
                    sent.message.values@,
                    (PasswordResetEmail { token: r, panel_origin, username, required }).spec_values(),
                )
            }),
    {
        let token = Self::generate_token();
        let reset_email = PasswordResetEmail {
            token: token.clone(),
            panel_origin,
            username,
            required,
        };
        self.email_access.send_one_fn(email, reset_email);
        let request = PasswordResetRequest {
            account_id: id,
            token: token.clone(),
            created: now,
        };
        self.insert_request(request);
        token
    }

    /// Records `request` under its token, replacing any outstanding
    /// request with the same token (last writer wins).
    fn insert_request(&mut self, request: PasswordResetRequest)
        requires
            old(self).wf(),
        ensures
            final(self).wf(),
            final(self).spec_requests() == old(self).spec_requests().insert(
                request.token@,
                request,
            ),
            final(self).spec_email_history() == old(self).spec_email_history(),
    {
        let ghost pre = *self;
        self.remove_request(request.token.as_str());
        let ghost mid = *self;
        self.requests.push(request);
        proof {
            assert forall|a: int, b: int|
                0 <= a < b < self.requests@.len() implies (#[trigger] self.requests@[a]).token@
                != (#[trigger] self.requests@[b]).token@ by {
                if b == self.requests@.len() - 1 {
                    assert(!mid.spec_requests().contains_key(request.token@));
                    assert(mid.requests@[a].token@ != request.token@);
                }
            }
            assert forall|k: Seq<char>|
                #[trigger] self.spec_requests().contains_key(k) == mid.spec_requests().insert(
                    request.token@,
                    request,
                ).contains_key(k) by {
                if k == request.token@ {
                    assert(self.requests@[self.requests@.len() - 1].token@ == k);
                } else {
                    if mid.spec_requests().contains_key(k) {
                        let i = choose|i: int|
                            0 <= i < mid.requests@.len() && (#[trigger] mid.requests@[i]).token@
                                == k;
                        assert(self.requests@[i].token@ == k);
                    } else {
                        if self.spec_requests().contains_key(k) {
                            let i = choose|i: int|
                                0 <= i < self.requests@.len() && (
                                #[trigger] self.requests@[i]).token@ == k;
                            assert(i < mid.requests@.len());
                            assert(mid.requests@[i].token@ == k);
                        }
                    }
                }
            }
            assert forall|k: Seq<char>|
                self.spec_requests().contains_key(k) implies #[trigger] self.spec_requests()[k]
                == mid.spec_requests().insert(request.token@, request)[k] by {
                let i = choose|i: int|
                    0 <= i < self.requests@.len() && (#[trigger] self.requests@[i]).token@ == k;
                if k == request.token@ {
                    assert(self.requests@[self.requests@.len() - 1].token@ == k);
                    assert(i == self.requests@.len() - 1);
                } else {
                    assert(mid.requests@[i].token@ == k);
                    let j = choose|j: int|
                        0 <= j < mid.requests@.len() && (#[trigger] mid.requests@[j]).token@ == k;
                    assert(mid.requests@[i] == mid.spec_requests()[k]);
                }
            }
            assert(self.spec_requests() =~= mid.spec_requests().insert(request.token@, request));
            assert(mid.spec_requests() == pre.spec_requests().remove(request.token@));
            assert(self.spec_requests() =~= pre.spec_requests().insert(request.token@, request));
        }
    }

    /// Looks a token up and returns a copy of its outstanding request, or
    /// `None` if the token is unknown or already consumed — the two are
    /// indistinguishable on purpose, so tokens cannot be enumerated.
    pub fn get_request(&self, token: &str) -> (r: Option<PasswordResetRequest>)
        requires
            self.wf(),
        ensures
            match r {
                Some(req) => self.spec_requests().contains_key(token@) && req
                    == self.spec_requests()[token@],
                None => !self.spec_requests().contains_key(token@),
            },
    {
        let mut i: usize = 0;
        while i < self.requests.len()
            invariant
                i <= self.requests@.len(),
                forall|j: int| 0 <= j < i ==> (#[trigger] self.requests@[j]).token@ != token@,
                self.wf(),
            decreases self.requests@.len() - i,
        {
            if crate::text::str_eq(self.requests[i].token.as_str(), token) {
                let found = self.requests[i].clone();
                proof {
                    let w = choose|w: int|
                        0 <= w < self.requests@.len() && (#[trigger] self.requests@[w]).token@
                            == token@;
                    assert(w == i);
                }
                return Some(found);
            }
            i += 1;
        }
        None
    }

    /// Consumes the token: removes its outstanding request, if any. The
    /// email history is untouched.
    pub fn remove_request(&mut self, token: &str)
        requires
            old(self).wf(),
        ensures
            final(self).wf(),
            final(self).spec_requests() == old(self).spec_requests().remove(token@),
            final(self).spec_email_history() == old(self).spec_email_history(),
    {
        let ghost pre = *self;
        let mut i: usize = 0;
        while i < self.requests.len()
            invariant
                *self == pre,
                pre == *old(self),
                pre.wf(),
                i <= self.requests@.len(),
                forall|j: int| 0 <= j < i ==> (#[trigger] self.requests@[j]).token@ != token@,
            decreases self.requests@.len() - i,
        {
            if crate::text::str_eq(self.requests[i].token.as_str(), token) {
                self.requests.remove(i);
                proof {
                    pre.requests@.remove_ensures(i as int);
                    assert(self.requests@ == pre.requests@.remove(i as int));
                    assert(self.requests@.len() == pre.requests@.len() - 1);
                    assert forall|a: int|
                        0 <= a < i implies #[trigger] self.requests@[a] == pre.requests@[a] by {
                        assert(pre.requests@.remove(i as int)[a] == pre.requests@[a]);
                    }
                    assert forall|a: int|
                        i <= a < self.requests@.len() implies #[trigger] self.requests@[a]
                        == pre.requests@[a + 1] by {
                        assert(pre.requests@.remove(i as int)[a] == pre.requests@[a + 1]);
                    }
                    assert forall|a: int, b: int|
                        0 <= a < b < self.requests@.len() implies (
                    #[trigger] self.requests@[a]).token@ != (#[trigger] self.requests@[b]).token@ by {
                        let pa: int = if a < i { a } else { a + 1 };
                        let pb: int = if b < i { b } else { b + 1 };
                        assert(self.requests@[a] == pre.requests@[pa]);
                        assert(self.requests@[b] == pre.requests@[pb]);
                    }
                    assert forall|k: Seq<char>|
                        #[trigger] self.spec_requests().contains_key(k)
                            == pre.spec_requests().remove(token@).contains_key(k) by {
                        if k == token@ {
                            if self.spec_requests().contains_key(k) {
                                let w = choose|w: int|
                                    0 <= w < self.requests@.len() && (
                                    #[trigger] self.requests@[w]).token@ == k;
                                let pw: int = if w < i { w } else { w + 1 };
                                assert(pre.requests@[pw].token@ == k);
                                assert(pre.requests@[i as int].token@ == k);
                            }
                        } else {
                            if pre.spec_requests().contains_key(k) {
                                let w = choose|w: int|
                                    0 <= w < pre.requests@.len() && (
                                    #[trigger] pre.requests@[w]).token@ == k;
                                let nw: int = if w < i { w } else { w - 1 };
                                assert(w != i);
                                assert(self.requests@[nw] == pre.requests@[w]);
                                assert(self.requests@[nw].token@ == k);
                            }
                            if self.spec_requests().contains_key(k) {
                                let w = choose|w: int|
                                    0 <= w < self.requests@.len() && (
                                    #[trigger] self.requests@[w]).token@ == k;
                                let pw: int = if w < i { w } else { w + 1 };
                                assert(self.requests@[w] == pre.requests@[pw]);
                            }
                        }
                    }
                    assert forall|k: Seq<char>|
                        self.spec_requests().contains_key(k) implies #[trigger] self.spec_requests()[k]
                        == pre.spec_requests().remove(token@)[k] by {
                        let w = choose|w: int|
                            0 <= w < self.requests@.len() && (#[trigger] self.requests@[w]).token@
                                == k;
                        let pw: int = if w < i { w } else { w + 1 };
                        assert(self.requests@[w] == pre.requests@[pw]);
                        assert(pre.requests@[pw].token@ == k);
                        let u = choose|u: int|
                            0 <= u < pre.requests@.len() && (#[trigger] pre.requests@[u]).token@
                                == k;
                        assert(pre.requests@[u] == pre.spec_requests()[k]);
                        assert(u == pw);
                    }
                    assert(self.spec_requests() =~= pre.spec_requests().remove(token@));
                }
                return ;
            }
            i += 1;
        }
        proof {
            assert(!pre.spec_requests().contains_key(token@));
            assert(self.spec_requests() =~= pre.spec_requests().remove(token@));
        }
    }
}

/// Issuing a reset request and immediately looking its token up finds a
/// request for the same account; consuming the token and looking it up
/// again finds nothing.
pub proof fn lemma_reset_request_lifecycle(
    m: Map<Seq<char>, PasswordResetRequest>,
    token: Seq<char>,
    request: PasswordResetRequest,
)
    requires
        request.token@ == token,
    ensures
        m.insert(token, request).contains_key(token),
        m.insert(token, request)[token].account_id == request.account_id,
        !m.insert(token, request).remove(token).contains_key(token),
{
}

} // verus!
