//! Password hashing, done by bcrypt.

use vstd::prelude::*;

verus! {

/// What `bcrypt::verify` answers for a password and a stored hash: whether
/// the password matches where the hash can be read, and nothing where it
/// cannot.
pub uninterp spec fn bcrypt_verify(password: Seq<char>, hash: Seq<char>) -> Option<bool>;

/// `bcrypt::verify`, an error turned into `None`. The answer depends on the
/// password and the hash alone: the salt and the cost are read from the hash.
#[verifier::external_body]
pub(crate) fn verify_password(password: &str, hash: &str) -> (outcome: Option<bool>)
    ensures
        outcome == bcrypt_verify(password@, hash@),
{
    bcrypt::verify(password, hash).ok()
}

/// `bcrypt::hash` at `bcrypt::DEFAULT_COST`, an error turned into `None`.
/// The salt is drawn from the system's random source, so which hash comes
/// back is not determined. Whichever it is, it holds the cost, the salt and
/// the digest of the password under them, which is what `bcrypt::verify`
/// reads from a hash and recomputes: the password verifies against it.
#[verifier::external_body]
pub(crate) fn hash_password(password: &str) -> (hash: Option<String>)
    ensures
        hash matches Some(text) ==> bcrypt_verify(password@, text@) == Some(true),
{
    bcrypt::hash(password, bcrypt::DEFAULT_COST).ok()
}

} // verus!
