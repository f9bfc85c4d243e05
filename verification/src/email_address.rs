//! Validated email addresses, as the directory stores them.
//!
//! An address is `user@domain`, split at the first `@`: the user part is
//! 1 to 64 characters, the domain part 1 to 255 characters and holds a
//! dot. Lengths count characters.

use vstd::prelude::*;
use vstd::string::StringExecFns;

use crate::text::find_char;

verus! {

/// The rejection for text that is not a well-formed address.
#[derive(Clone, Copy, Debug, PartialEq, Eq, Structural)]
pub struct InvalidEmailAddress;

/// Position `i` holds the first `@` of `s`.
pub open spec fn first_at_sign(s: Seq<char>, i: int) -> bool {
    0 <= i < s.len() && s[i] == '@' && forall|j: int| 0 <= j < i ==> s[j] != '@'
}

/// A valid user part: nonempty, at most 64 characters.
pub open spec fn valid_user_part(u: Seq<char>) -> bool {
    1 <= u.len() <= 64
}

/// A valid domain part: nonempty, at most 255 characters, holds a dot.
pub open spec fn valid_domain_part(d: Seq<char>) -> bool {
    1 <= d.len() <= 255 && exists|j: int| 0 <= j < d.len() && #[trigger] d[j] == '.'
}

/// A well-formed address: it splits at its first `@` into a valid user
/// part and a valid domain part.
pub open spec fn valid_email(s: Seq<char>) -> bool {
    exists|i: int|
        #[trigger] first_at_sign(s, i) && valid_user_part(s.subrange(0, i)) && valid_domain_part(
            s.subrange(i + 1, s.len() as int),
        )
}

/// A newtype around a string that is known to be a well-formed address.
#[derive(Clone, Debug)]
pub struct EmailAddress(String);

impl View for EmailAddress {
    type V = Seq<char>;

    closed spec fn view(&self) -> Seq<char> {
        self.0@
    }
}

impl EmailAddress {
    /// Accepts `email_address` exactly when it is well formed, and then
    /// holds it unchanged.
    pub fn new(email_address: &str) -> (r: Result<Self, InvalidEmailAddress>)
        ensures
            match r {
                Ok(e) => valid_email(email_address@) && e@ == email_address@,
                Err(_) => !valid_email(email_address@),
            },
    {
        let len = email_address.unicode_len();
        let at = match find_char(email_address, '@') {
            Some(i) => i,
            None => {
                proof {
                    assert forall|i: int| !first_at_sign(email_address@, i) by {
                        if 0 <= i < email_address@.len() {
                            assert(email_address@[i] != '@');
                        }
                    }
                }
                return Err(InvalidEmailAddress);
            },
        };
        let user = email_address.substring_char(0, at);
        let domain = email_address.substring_char(at + 1, len);
        proof {
            assert(first_at_sign(email_address@, at as int));
            assert forall|i: int|
                i != at && #[trigger] first_at_sign(email_address@, i) implies false by {
                if i < at {
                    assert(email_address@[at as int] == '@');
                } else {
                    assert(email_address@[i] == '@');
                }
            }
        }
        if Self::validate_domain(domain) && Self::validate_user(user) {
            Ok(EmailAddress(String::from_str(email_address)))
        } else {
            Err(InvalidEmailAddress)
        }
    }

    /// Whether `domain` can stand after the `@` of an address.
    pub fn validate_domain(domain: &str) -> (r: bool)
        ensures
            r == valid_domain_part(domain@),
    {
        let len = domain.unicode_len();
        if len == 0 || len > 255 {
            return false;
        }
        find_char(domain, '.').is_some()
    }

    /// Whether `user` can stand before the `@` of an address.
    pub fn validate_user(user: &str) -> (r: bool)
        ensures
            r == valid_user_part(user@),
    {
        let len = user.unicode_len();
        len != 0 && len <= 64
    }

    /// The address's text.
    pub fn as_str(&self) -> (r: &str)
        ensures
            r@ == self@,
    {
        self.0.as_str()
    }

    /// Gives the address's text up.
    pub fn into_string(self) -> (r: String)
        ensures
            r@ == self@,
    {
        self.0
    }
}

impl PartialEq for EmailAddress {
    fn eq(&self, other: &EmailAddress) -> (r: bool) {
        crate::text::str_eq(self.0.as_str(), other.0.as_str())
    }
}

impl vstd::std_specs::cmp::PartialEqSpecImpl for EmailAddress {
    open spec fn obeys_eq_spec() -> bool {
        true
    }

    open spec fn eq_spec(&self, other: &EmailAddress) -> bool {
        self@ == other@
    }
}

/// An address field that may be empty: `None` where the given text was
/// missing or blank.
#[derive(Clone, Debug)]
pub struct OptionalEmailAddress(pub Option<EmailAddress>);

} // verus!
