//! The credential codec: salted password hashing and verification.
//!
//! Hashing and verification are delegated to the argon2 crate, a
//! memory-hard algorithm with a constant-time comparison. The outcome of
//! verification is a function of the hash string and the password alone:
//! the salt and the parameters travel inside the hash string.

use vstd::prelude::*;

use argon2::{Argon2, PasswordHasher, PasswordVerifier};

use crate::errors::Error;

verus! {

/// Whether the verifier can evaluate a hash string at all: it parses as
/// a PHC string naming a supported algorithm and version with valid
/// parameters, so that verifying any password against it completes with
/// a yes or a no instead of an error. This depends on the hash string
/// alone: every verification failure other than a mismatch is caused by
/// the hash string, never by the password.
pub uninterp spec fn phc_supported(hash: Seq<char>) -> bool;

/// Whether recomputing the digest of `password`, with the salt and the
/// parameters embedded in `hash`, reproduces the digest embedded in
/// `hash`. A password too long for the algorithm never matches.
pub uninterp spec fn password_matches(hash: Seq<char>, password: Seq<u8>) -> bool;

/// Relies on argon2's `PasswordHasher::hash_password`, which hashes with a
/// fresh random salt, and on its documented round trip with
/// `PasswordVerifier::verify_password`: a produced hash string is a
/// supported PHC string and verifies against the hashed password.
#[verifier::external_body]
fn argon2_hash(password: &[u8]) -> (r: Result<String, Error>)
    ensures
        r matches Ok(h) ==> phc_supported(h@) && password_matches(h@, password@),
        r matches Err(e) ==> e == Error::HashingError,
{
    match Argon2::default().hash_password(password) {
        Ok(h) => Ok(h.to_string()),
        Err(_) => Err(Error::HashingError),
    }
}

/// Relies on argon2's `PasswordVerifier::verify_password` for `str`
/// hashes: on a supported hash string it recomputes and compares in
/// constant time, reporting a mismatch as `Error::PasswordInvalid`; every
/// other failure depends on the hash string alone.
#[verifier::external_body]
fn argon2_verify(hash: &str, password: &[u8]) -> (r: Result<bool, Error>)
    ensures
        r matches Ok(b) ==> b == (phc_supported(hash@) && password_matches(hash@, password@)),
        r matches Err(e) ==> e == Error::HashingError,
        r is Err <==> !phc_supported(hash@),
{
    match Argon2::default().verify_password(password, hash) {
        Ok(()) => Ok(true),
        Err(argon2::password_hash::Error::PasswordInvalid) => Ok(false),
        Err(_) => Err(Error::HashingError),
    }
}

/// A fresh hash verifies against the password it was made from: a hash
/// with the two properties that hashing guarantees — a supported PHC
/// string whose digest matches the password — admits only `Ok(true)`
/// among the results the verifier's contract allows for that pair.
pub proof fn lemma_fresh_hash_verifies(hash: Seq<char>, password: Seq<u8>, r: Result<bool, Error>)
    requires
        phc_supported(hash),
        password_matches(hash, password),
        r matches Ok(b) ==> b == (phc_supported(hash) && password_matches(hash, password)),
        r is Err ==> !phc_supported(hash),
    ensures
        r == Ok::<bool, Error>(true),
{
}

/// Produces a salted, irreversible digest of `password`; each call salts
/// afresh, and the result verifies against exactly this password.
pub fn hash_password(password: &[u8]) -> (r: Result<String, Error>)
    ensures
        r matches Ok(h) ==> phc_supported(h@) && password_matches(h@, password@),
        r matches Err(e) ==> e == Error::HashingError,
{
    argon2_hash(password)
}

/// Recomputes the digest of `password` with the salt and parameters
/// embedded in `hash` and compares; `false` means a mismatch, and an
/// error comes exactly when the hash string itself is not a supported
/// PHC string.
pub fn verify_password(hash: &str, password: &[u8]) -> (r: Result<bool, Error>)
    ensures
        r matches Ok(b) ==> b == (phc_supported(hash@) && password_matches(hash@, password@)),
        r matches Err(e) ==> e == Error::HashingError,
        r is Err <==> !phc_supported(hash@),
{
    argon2_verify(hash, password)
}

} // verus!
