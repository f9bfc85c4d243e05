//! The crate's only source of randomness: alphanumeric strings drawn from
//! an OS-seeded generator, used for session ids and reset tokens.

use rand::distributions::DistString;
use vstd::prelude::*;

use crate::text::is_alphanumeric_char;

verus! {

#[verifier::external_type_specification]
#[verifier::external_body]
pub struct ExStdRng(rand::rngs::StdRng);

/// Relies on `rand::SeedableRng::from_entropy` to seed a fresh generator
/// from the operating system. Nothing can be promised of its state.
#[verifier::external_body]
pub fn fresh_rng() -> (r: rand::rngs::StdRng) {
    rand::SeedableRng::from_entropy()
}

/// Relies on `rand::distributions::Alphanumeric`: `sample_string` draws
/// exactly `len` characters, each from `A`-`Z`, `a`-`z` or `0`-`9`. Which
/// characters come out is up to the generator, so no more is stated.
#[verifier::external_body]
pub fn sample_alphanumeric(rng: &mut rand::rngs::StdRng, len: usize) -> (s: String)
    ensures
        s@.len() == len as nat,
        forall|i: int| 0 <= i < s@.len() ==> is_alphanumeric_char(#[trigger] s@[i]),
{
    rand::distributions::Alphanumeric.sample_string(rng, len)
}

} // verus!
