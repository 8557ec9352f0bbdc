use vstd::prelude::*;

verus! {

/// Whether `password` is the one a stored bcrypt `hash` was made from, as
/// `bcrypt::verify` decides it from the two values alone.
pub uninterp spec fn password_matches(password: Seq<char>, hash: Seq<char>) -> bool;

/// Relies on `bcrypt::hash`: a one-way hash of `password` under a fresh random
/// salt, which `bcrypt::verify` accepts for that password. The salt comes from
/// the operating system, which may fail, so success is not promised.
#[verifier::external_body]
pub(crate) fn hash_password(password: &str, cost: u32) -> (r: Option<String>)
    requires
        4 <= cost <= 31,
    ensures
        r matches Some(h) ==> password_matches(password@, h@),
{
    bcrypt::hash(password, cost).ok()
}

/// Relies on `bcrypt::verify`: checks `password` against a stored hash; a hash
/// that does not parse matches no password.
#[verifier::external_body]
pub(crate) fn verify_password(password: &str, hash: &str) -> (r: bool)
    ensures
        r == password_matches(password@, hash@),
{
    bcrypt::verify(password, hash).unwrap_or(false)
}

} // verus!
