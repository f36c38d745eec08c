//! Password-based credential verification: look up the stored PHC-format
//! hash for a username and verify the candidate password against it with
//! a memory-hard hash.  The raw password never reaches storage; the
//! stored hash never leaves this boundary.

use argon2::PasswordVerifier;
use vstd::prelude::*;

use crate::store::{spec_credential_for, Credential, Store};

verus! {

/// A username with the candidate password a caller presented.
#[derive(Debug)]
pub struct Credentials {
    pub username: String,
    pub password: String,
}

/// Why credential verification failed: the caller's credentials are
/// wrong, or the stored hash material is unusable.
#[derive(Debug)]
pub enum AuthError {
    InvalidCredentials(String),
    UnexpectedError(String),
}

/// What verifying a candidate password against a PHC-format hash string
/// yields: nothing when the stored string is no usable hash, otherwise
/// whether the password matches.  A function of the two strings alone.
pub uninterp spec fn phc_verify_of(hash: Seq<char>, password: Seq<char>) -> Option<bool>;

/// Relies on argon2's `Argon2::verify_password` against a PHC-format
/// hash string: deterministic in hash and password.  Its source returns
/// `Error::PasswordInvalid` exactly when the recomputed output differs
/// or the string carries no salt or output to compare; any other error
/// means the stored string is not a hash this algorithm can parse and
/// use.
#[verifier::external_body]
fn verify_password_hash(expected_hash: &String, candidate: &String) -> (r: Option<bool>)
    ensures
        r == phc_verify_of(expected_hash@, candidate@),
{
    match argon2::Argon2::default().verify_password(
        candidate.as_bytes(),
        expected_hash.as_str(),
    ) {
        Ok(()) => Some(true),
        Err(argon2::password_hash::Error::PasswordInvalid) => Some(false),
        Err(_) => None,
    }
}

/// The stored credential row for a username, if there is one.
pub fn find_credential<'a>(store: &'a Store, username: &String) -> (r: Option<&'a Credential>)
    ensures
        r is Some <==> spec_credential_for(store.credentials@, username@) is Some,
        r matches Some(c) ==> Some(*c) == spec_credential_for(store.credentials@, username@),
{
    let n = store.credentials.len();
    let mut i: usize = 0;
    proof {
        assert(store.credentials@.skip(0) =~= store.credentials@);
    }
    while i < n
        invariant
            n == store.credentials@.len(),
            i <= n,
            spec_credential_for(store.credentials@, username@) == spec_credential_for(
                store.credentials@.skip(i as int),
                username@,
            ),
        decreases n - i,
    {
        let row = &store.credentials[i];
        proof {
            assert(store.credentials@.skip(i as int)[0] == store.credentials@[i as int]);
        }
        if row.username == *username {
            return Some(row);
        }
        proof {
            assert(store.credentials@.skip(i as int).drop_first() =~= store.credentials@.skip(
                i + 1,
            ));
        }
        i = i + 1;
    }
    None
}

/// Verify a caller's credentials against the stored credential rows.
///
/// An unknown username and a mismatched password are the caller's
/// fault; a stored hash that cannot be used is the system's.  The
/// expensive comparison is skipped for an unknown username; the latency
/// difference this opens between the two rejections is a known,
/// deliberate gap.
pub fn validate_credentials(credentials: &Credentials, store: &Store) -> (r: Result<
    u128,
    AuthError,
>)
    ensures
        ({
            let cred = spec_credential_for(store.credentials@, credentials.username@);
            match r {
                Ok(user_id) => cred matches Some(c) && c.user_id == user_id && phc_verify_of(
                    c.password_hash@,
                    credentials.password@,
                ) == Some(true),
                Err(AuthError::InvalidCredentials(_)) => cred is None || (cred matches Some(c)
                    && phc_verify_of(c.password_hash@, credentials.password@) == Some(false)),
                Err(AuthError::UnexpectedError(_)) => cred matches Some(c) && phc_verify_of(
                    c.password_hash@,
                    credentials.password@,
                ) is None,
            }
        }),
{
    let cred = match find_credential(store, &credentials.username) {
        Some(c) => c,
        None => {
            return Err(AuthError::InvalidCredentials("Unknown username.".to_owned()));
        },
    };
    match verify_password_hash(&cred.password_hash, &credentials.password) {
        Some(true) => Ok(cred.user_id),
        Some(false) => Err(AuthError::InvalidCredentials("Invalid password.".to_owned())),
        None => {
            Err(
                AuthError::UnexpectedError(
                    "Failed to parse hash in PHC string format.".to_owned(),
                ),
            )
        },
    }
}

} // verus!
