//! Confirmation-token generation: opaque, unguessable tokens drawn from a
//! cryptographically secure random source.

use rand::RngExt;
use vstd::prelude::*;

verus! {

/// Length of every confirmation token.
pub const TOKEN_LEN: usize = 25;

/// An ASCII letter or digit, the only characters a token may contain.
pub open spec fn is_token_char(c: char) -> bool {
    ||| 48 <= (c as u32) <= 57
    ||| 65 <= (c as u32) <= 90
    ||| 97 <= (c as u32) <= 122
}

/// A well-formed confirmation token: exactly `TOKEN_LEN` characters, all
/// ASCII letters or digits.
pub open spec fn token_well_formed(s: Seq<char>) -> bool {
    &&& s.len() == TOKEN_LEN
    &&& (forall|i: int| 0 <= i < s.len() ==> is_token_char(s[i]))
}

/// Relies on rand's `Alphanumeric` distribution sampled from the thread
/// rng: every sample is one byte of `[A-Za-z0-9]`, uniformly chosen from a
/// cryptographically secure source.  Nothing more can be promised of a
/// random value.
#[verifier::external_body]
fn sample_alphanumeric() -> (c: char)
    ensures
        is_token_char(c),
{
    char::from(rand::rng().sample(rand::distr::Alphanumeric))
}

/// Relies on std's `String::push`: appends exactly one character.
#[verifier::external_body]
fn push_char(s: &mut String, c: char)
    ensures
        final(s)@ == old(s)@.push(c),
{
    s.push(c);
}

/// A fresh confirmation token: `TOKEN_LEN` characters drawn uniformly from
/// `[A-Za-z0-9]`.  Randomness gives no guarantee of freshness that could
/// be stated here; the store treats a clash with an existing token as a
/// conflict.
pub fn generate_subscription_token() -> (r: String)
    ensures
        token_well_formed(r@),
{
    let mut token = String::new();
    let mut i: usize = 0;
    while i < TOKEN_LEN
        invariant
            i <= TOKEN_LEN,
            token@.len() == i,
            forall|j: int| 0 <= j < token@.len() ==> is_token_char(token@[j]),
        decreases TOKEN_LEN - i,
    {
        let c = sample_alphanumeric();
        push_char(&mut token, c);
        i = i + 1;
    }
    token
}

} // verus!
