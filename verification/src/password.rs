//! Stored passwords: identifying a hash's scheme, creating new hashes,
//! and checking a candidate password against a stored hash.
//!
//! New hashes are always Argon2; SHA-256-crypt and SHA-512-crypt hashes
//! are accepted for checking because imported directories hold them.
//! Plain-text entries exist only so old data can be imported: they are
//! never checked and always fail.

use argon2::PasswordHasher;
use argon2::PasswordVerifier;
use vstd::prelude::*;

use crate::text::{starts_with, str_starts_with};

verus! {

/// The password schemes the directory can hold.
#[derive(
    Clone,
    Copy,
    Debug,
    PartialEq,
    Eq,
    Structural,
    Hash,
)]
pub enum PasswordType {
    /// An Argon2 hash: what every newly set password gets.
    Argon2,
    /// A SHA-256-crypt hash, accepted from imported directories.
    SHA256,
    /// A SHA-512-crypt hash, accepted from imported directories.
    SHA512,
    /// A plain-text entry. Too insecure to check; import-only.
    PlainText,
    /// Any form this panel does not recognize. Never checked.
    Unknown,
}

/// What can go wrong when hashing or checking a password.
#[derive(Clone, Debug)]
pub enum PasswordErrors {
    /// The hashing backend itself failed; the text says how.
    InternalPasswordError(String),
    /// The stored (or requested) scheme cannot be used for this operation.
    UnsupportedHashType(PasswordType),
}

/// The scheme a stored password string is in, read off its prefix.
pub open spec fn identify_spec(s: Seq<char>) -> PasswordType {
    if starts_with(s, "$argon2"@) {
        PasswordType::Argon2
    } else if starts_with(s, "$5$"@) {
        PasswordType::SHA256
    } else if starts_with(s, "$6$"@) {
        PasswordType::SHA512
    } else if starts_with(s, "{PLAIN}"@) || starts_with(s, "{plain}"@) || starts_with(
        s,
        "{clear}"@,
    ) || starts_with(s, "{CLEAR}"@) {
        PasswordType::PlainText
    } else {
        PasswordType::Unknown
    }
}

impl PasswordType {
    /// Reads the scheme off a stored password string's prefix.
    pub fn identify(password: &str) -> (r: Self)
        ensures
            r == identify_spec(password@),
    {
        if str_starts_with(password, "$argon2") {
            PasswordType::Argon2
        } else if str_starts_with(password, "$5$") {
            PasswordType::SHA256
        } else if str_starts_with(password, "$6$") {
            PasswordType::SHA512
        } else if str_starts_with(password, "{PLAIN}") || str_starts_with(password, "{plain}")
            || str_starts_with(password, "{clear}") || str_starts_with(password, "{CLEAR}") {
            PasswordType::PlainText
        } else {
            PasswordType::Unknown
        }
    }
}

/// Whether `password` matches the Argon2 hash `hash`, as Argon2
/// verification decides it. A function of the two strings alone.
pub uninterp spec fn argon2_matches(hash: Seq<char>, password: Seq<char>) -> bool;

/// Whether `password` matches the SHA-512-crypt hash `hash`.
pub uninterp spec fn sha512_matches(hash: Seq<char>, password: Seq<char>) -> bool;

/// Whether `password` matches the SHA-256-crypt hash `hash`.
pub uninterp spec fn sha256_matches(hash: Seq<char>, password: Seq<char>) -> bool;

/// Relies on `argon2::Argon2::hash_password` with a fresh OS-drawn salt.
/// The salt is random, so only the shape of the result is stated: a PHC
/// string, which for every Argon2 algorithm starts with `$argon2`.
#[verifier::external_body]
fn argon2_hash(password: &str) -> (r: Result<String, String>)
    ensures
        match r {
            Ok(h) => starts_with(h@, "$argon2"@),
            Err(_) => true,
        },
{
    let salt = argon2::password_hash::SaltString::generate(&mut rand::rngs::OsRng);
    argon2::Argon2::default()
        .hash_password(password.as_bytes(), &salt)
        .map(|h| h.to_string())
        .map_err(|e| e.to_string())
}

/// Relies on `argon2::Argon2::verify_password`, which decides from the
/// hash and the password alone. A hash that does not parse as a PHC
/// string verifies as false, as does a wrong password.
#[verifier::external_body]
fn argon2_verify(hash: &str, password: &str) -> (r: bool)
    ensures
        r == argon2_matches(hash@, password@),
{
    match argon2::PasswordHash::new(hash) {
        Ok(parsed) => argon2::Argon2::default().verify_password(
            password.as_bytes(),
            &parsed,
        ).is_ok(),
        Err(_) => false,
    }
}

/// Relies on `sha_crypt::sha512_check`, which decides from the hash and
/// the password alone; a malformed hash checks as false.
#[verifier::external_body]
fn sha512_verify(hash: &str, password: &str) -> (r: bool)
    ensures
        r == sha512_matches(hash@, password@),
{
    sha_crypt::sha512_check(password, hash).is_ok()
}

/// Relies on `sha_crypt::sha256_check`, which decides from the hash and
/// the password alone; a malformed hash checks as false.
#[verifier::external_body]
fn sha256_verify(hash: &str, password: &str) -> (r: bool)
    ensures
        r == sha256_matches(hash@, password@),
{
    sha_crypt::sha256_check(password, hash).is_ok()
}

/// A stored password: the hash text and the scheme it was identified or
/// created as.
#[derive(Clone, Debug)]
pub struct Password {
    password: String,
    hash_type: PasswordType,
}

impl Password {
    /// The stored hash text.
    pub closed spec fn spec_password(&self) -> Seq<char> {
        self.password@
    }

    /// The stored scheme.
    pub closed spec fn spec_hash_type(&self) -> PasswordType {
        self.hash_type
    }

    /// Draws a fresh sixteen-character alphanumeric password, hashes it
    /// under `method`, and returns the hash beside the clear text (so the
    /// caller can show it once). Only Argon2 may hash, as in `new_hash`.
    pub fn create_password(method: PasswordType) -> (r: Result<(Self, String), PasswordErrors>)
        ensures
            match r {
                Ok((p, clear)) => {
                    &&& method is Argon2
                    &&& p.spec_hash_type() is Argon2
                    &&& starts_with(p.spec_password(), "$argon2"@)
                    &&& clear@.len() == 16
                    &&& forall|i: int|
                        0 <= i < clear@.len() ==> crate::text::is_alphanumeric_char(
                            #[trigger] clear@[i],
                        )
                },
                Err(PasswordErrors::UnsupportedHashType(m)) => m == method && !(method is Argon2),
                Err(PasswordErrors::InternalPasswordError(_)) => method is Argon2,
            },
    {
        let mut rng = crate::random::fresh_rng();
        let clear = crate::random::sample_alphanumeric(&mut rng, 16);
        let password = Self::new_hash(clear.as_str(), method)?;
        Ok((password, clear))
    }

    /// Hashes `password` under `method`. Only Argon2 may hash new
    /// passwords; every other scheme is refused by name.
    pub fn new_hash(password: &str, method: PasswordType) -> (r: Result<Self, PasswordErrors>)
        ensures
            match r {
                Ok(p) => method is Argon2 && p.spec_hash_type() is Argon2 && starts_with(
                    p.spec_password(),
                    "$argon2"@,
                ),
                Err(PasswordErrors::UnsupportedHashType(m)) => m == method && !(method is Argon2),
                Err(PasswordErrors::InternalPasswordError(_)) => method is Argon2,
            },
    {
        match method {
            PasswordType::Argon2 => Self::new_argon2(password),
            _ => Err(PasswordErrors::UnsupportedHashType(method)),
        }
    }

    /// Hashes `password` with Argon2 and a fresh salt.
    pub fn new_argon2(password: &str) -> (r: Result<Self, PasswordErrors>)
        ensures
            match r {
                Ok(p) => p.spec_hash_type() is Argon2 && starts_with(
                    p.spec_password(),
                    "$argon2"@,
                ),
                Err(e) => e is InternalPasswordError,
            },
    {
        match argon2_hash(password) {
            Ok(hash) => Ok(Password { password: hash, hash_type: PasswordType::Argon2 }),
            Err(e) => Err(PasswordErrors::InternalPasswordError(e)),
        }
    }

    /// Wraps text that is already a hash, identifying its scheme from its
    /// prefix. The text is stored unchanged.
    pub fn new_hashed(password: String) -> (r: Self)
        ensures
            r.spec_password() == password@,
            r.spec_hash_type() == identify_spec(password@),
    {
        let hash_type = PasswordType::identify(password.as_str());
        Password { password, hash_type }
    }

    /// Re-hashes an imported plain-text entry: everything after its first
    /// six characters is taken as the password and hashed under `method`.
    /// On any failure the stored value is unchanged.
    pub fn hash(&mut self, method: PasswordType) -> (r: Result<(), PasswordErrors>)
        requires
            old(self).spec_password().len() >= 6,
        ensures
            match r {
                Ok(_) => method is Argon2 && final(self).spec_hash_type() is Argon2 && starts_with(
                    final(self).spec_password(),
                    "$argon2"@,
                ),
                Err(PasswordErrors::UnsupportedHashType(m)) => m == method && !(method is Argon2)
                    && *final(self) == *old(self),
                Err(PasswordErrors::InternalPasswordError(_)) => method is Argon2 && *final(self)
                    == *old(self),
            },
    {
        let len = self.password.as_str().unicode_len();
        let tail = self.password.as_str().substring_char(6, len);
        match Self::new_hash(tail, method) {
            Ok(hashed) => {
                *self = hashed;
                Ok(())
            },
            Err(e) => Err(e),
        }
    }

    /// Checks a candidate password against the stored hash, under the
    /// stored scheme. Plain-text and unrecognized entries are never
    /// checked: they are refused by name.
    pub fn check_password(&self, password: &str) -> (r: Result<bool, PasswordErrors>)
        ensures
            match r {
                Ok(b) => match self.spec_hash_type() {
                    PasswordType::Argon2 => b == argon2_matches(self.spec_password(), password@),
                    PasswordType::SHA256 => b == sha256_matches(self.spec_password(), password@),
                    PasswordType::SHA512 => b == sha512_matches(self.spec_password(), password@),
                    _ => false,
                },
                Err(PasswordErrors::UnsupportedHashType(m)) => m == self.spec_hash_type() && (
                self.spec_hash_type() is PlainText || self.spec_hash_type() is Unknown),
                Err(PasswordErrors::InternalPasswordError(_)) => false,
            },
    {
        match self.hash_type {
            PasswordType::Argon2 => Ok(argon2_verify(self.password.as_str(), password)),
            PasswordType::SHA256 => Ok(sha256_verify(self.password.as_str(), password)),
            PasswordType::SHA512 => Ok(sha512_verify(self.password.as_str(), password)),
            PasswordType::PlainText => Err(
                PasswordErrors::UnsupportedHashType(PasswordType::PlainText),
            ),
            PasswordType::Unknown => Err(
                PasswordErrors::UnsupportedHashType(PasswordType::Unknown),
            ),
        }
    }

    /// The stored scheme.
    pub fn hash_type(&self) -> (r: PasswordType)
        ensures
            r == self.spec_hash_type(),
    {
        self.hash_type
    }

    /// The stored hash text.
    pub fn as_str(&self) -> (r: &str)
        ensures
            r@ == self.spec_password(),
    {
        self.password.as_str()
    }

    /// Gives the stored hash text up.
    pub fn into_string(self) -> (r: String)
        ensures
            r@ == self.spec_password(),
    {
        self.password
    }
}

} // verus!
