//! One-way salted password hashing.
//!
//! Hashing is deliberately slow (a fixed conservative cost factor) and the
//! salt is embedded in the produced hash string, so verification needs only
//! the plaintext and the stored string.  Verification is a deterministic
//! function of those two values; hashing is not, since each call draws a
//! fresh random salt.

use vstd::prelude::*;

verus! {

/// What checking a plaintext against a stored hash string returns:
/// `Some(true)` when the pair matches, `Some(false)` when the stored string is
/// a well-formed hash of some other password, and `None` when the stored
/// string cannot be parsed as a hash at all.  The outcome depends on the two
/// arguments alone: the salt and cost are embedded in the hash string.
pub uninterp spec fn bcrypt_check(password: Seq<char>, hash: Seq<char>) -> Option<bool>;

/// Relies on bcrypt::hash with bcrypt::DEFAULT_COST: the salt is drawn from
/// the operating system's randomness, so nothing is claimed about the hash
/// string itself; bcrypt::verify recomputes the hash from the embedded salt
/// and cost, so a produced hash always checks against its own password.
#[verifier::external_body]
pub(crate) fn hash_password(password: &String) -> (r: Result<String, String>)
    ensures
        r matches Ok(h) ==> bcrypt_check(password@, h@) == Some(true),
{
    bcrypt::hash(password.as_bytes(), bcrypt::DEFAULT_COST).map_err(|e| e.to_string())
}

/// Relies on bcrypt::verify: it parses the stored string, recomputes the hash
/// with the embedded salt and cost, and compares in constant time; it errs
/// only when the stored string is not a parseable hash.  The outcome is a
/// deterministic function of the two arguments.
#[verifier::external_body]
pub(crate) fn verify_password(password: &String, hash: &String) -> (r: Option<bool>)
    ensures
        r == bcrypt_check(password@, hash@),
{
    bcrypt::verify(password.as_bytes(), hash.as_str()).ok()
}

} // verus!
