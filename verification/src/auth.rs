//! Credential hasher: a salted, memory-hard digest of a secret, used both to
//! mint and to verify API keys.
//!
//! The digest must stay comparable across processes, so it is pinned to one
//! algorithm with its default parameters; this is a portability boundary,
//! not a performance one.

use vstd::prelude::*;

use crate::domain::DomainError;
use crate::domain::HashDigest;

verus! {

/// Smallest salt length the hasher accepts.
pub const MIN_SALT_LEN: usize = 8;

/// Largest salt length the hasher accepts.
pub const MAX_SALT_LEN: usize = 0xFFFF_FFFF;

/// Largest secret length the hasher accepts.
pub const MAX_SECRET_LEN: usize = 0xFFFF_FFFF;

/// The inputs on which the memory-hard hash is defined; outside these bounds
/// the underlying computation reports a failure instead of producing a
/// digest.
pub open spec fn hashable(secret: Seq<u8>, salt: Seq<u8>) -> bool {
    &&& secret.len() <= MAX_SECRET_LEN
    &&& MIN_SALT_LEN <= salt.len() <= MAX_SALT_LEN
}

/// The 32-byte digest that the memory-hard hash assigns to a secret and a
/// salt.  The digest depends on those two inputs alone.
pub uninterp spec fn digest_of(secret: Seq<u8>, salt: Seq<u8>) -> Seq<u8>;

#[verifier::external_type_specification]
#[verifier::external_body]
pub struct ExArgon2Error(argon2::Error);

/// Relies on argon2's `hash_password_into` with the crate's default
/// parameters (Argon2id v19): the digest is a function of secret and salt
/// alone, and with a 32-byte output buffer the call succeeds exactly when
/// the secret and salt lengths are within the crate's documented bounds.
#[verifier::external_body]
fn argon2_digest(pwd: &[u8], salt: &[u8]) -> (r: Result<HashDigest, argon2::Error>)
    ensures
        r is Ok <==> hashable(pwd@, salt@),
        r is Ok ==> r->Ok_0@ == digest_of(pwd@, salt@),
{
    let mut out = [0u8; 32];
    argon2::Argon2::default().hash_password_into(pwd, salt, &mut out)?;
    Ok(out)
}

/// Salted memory-hard digest of `pwd`.
///
/// Succeeds exactly on the supported input lengths and then returns the
/// digest of `pwd` and `salt`; any failure of the underlying computation is
/// surfaced as [`DomainError::HashingError`].
pub fn digest(pwd: &[u8], salt: &[u8]) -> (r: Result<HashDigest, DomainError>)
    ensures
        r is Ok <==> hashable(pwd@, salt@),
        r is Ok ==> r->Ok_0@ == digest_of(pwd@, salt@),
        r is Err ==> r->Err_0 == DomainError::HashingError,
{
    match argon2_digest(pwd, salt) {
        Ok(d) => Ok(d),
        Err(_) => Err(DomainError::HashingError),
    }
}

} // verus!
