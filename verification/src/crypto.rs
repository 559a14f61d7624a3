//! Trusted boundary around the salted password hash (the bcrypt crate).

use vstd::prelude::*;

verus! {

/// Whether the salted-hash check accepts `password` against `hash`: the
/// boolean bcrypt::verify answers on a well-formed hash, a function of the
/// two strings alone.
pub uninterp spec fn bcrypt_verifies(password: Seq<char>, hash: Seq<char>) -> bool;

/// Whether `hash` is a well-formed bcrypt hash with an allowed cost: exactly
/// the condition under which bcrypt::verify answers instead of failing, a
/// function of the hash alone — the password never decides it.
pub uninterp spec fn bcrypt_parses(hash: Seq<char>) -> bool;

/// The message bcrypt::verify reports for a hash it refuses: what the hash
/// failed to parse as, or that its cost is out of range — a function of the
/// hash alone.
pub uninterp spec fn bcrypt_error_text(hash: Seq<char>) -> Seq<char>;

/// Relies on bcrypt::hash with the default cost: on success the result is a
/// well-formed salted bcrypt hash — always exactly 60 characters — that
/// bcrypt::verify accepts for this password. The salt is drawn fresh on
/// every call, so nothing else is stated of the result.
#[verifier::external_body]
pub(crate) fn hash_password(password: &str) -> (r: Result<String, String>)
    ensures
        r matches Ok(h) ==> bcrypt_verifies(password@, h@),
        r matches Ok(h) ==> bcrypt_parses(h@),
        r matches Ok(h) ==> h@.len() == 60,
{
    bcrypt::hash(password, bcrypt::DEFAULT_COST).map_err(|e| e.to_string())
}

/// Relies on bcrypt::verify: it fails exactly when the hash is malformed or
/// carries a cost outside the allowed range, with a message the hash alone
/// determines, and otherwise says whether `password` matches the salted
/// `hash`.
#[verifier::external_body]
pub(crate) fn verify_password(password: &str, hash: &str) -> (r: Result<bool, String>)
    ensures
        r is Ok <==> bcrypt_parses(hash@),
        r matches Ok(b) ==> b == bcrypt_verifies(password@, hash@),
        r matches Err(m) ==> m@ == bcrypt_error_text(hash@),
{
    bcrypt::verify(password, hash).map_err(|e| e.to_string())
}

} // verus!
