//! Password hashing.
use vstd::prelude::*;

verus! {

/// A password that could not be hashed, whatever the cause.
#[derive(Debug, Clone, Copy, PartialEq, Eq, Structural)]
pub struct HashFailure;

/// Whether a password hash (a PHC string) accepts a password under Argon2's
/// verification. Its definition is the argon2 crate's.
pub uninterp spec fn password_matches(hash: Seq<char>, password: Seq<char>) -> bool;

/// Whether a text is an Argon2id PHC string of version 19: it starts with
/// `$argon2id$v=19$` and goes on after it.
pub open spec fn is_argon2id_phc(h: Seq<char>) -> bool {
    h.len() > 15 && h.take(15) == "$argon2id$v=19$"@
}

/// Calls `argon2::Argon2::default().hash_password` with a fresh random salt
/// (`SaltString::generate` on the operating system's generator) and renders the
/// hash as its PHC string. The default is Argon2id, version 19, and the rendering
/// starts `$argon2id$v=19$` followed by the parameters, salt and output. The salt
/// is random, so the hash is not a function of the password; what is stated is its
/// form and that it accepts the password. With the generated 16-byte salt and the
/// default parameters the crate refuses only a password longer than `MAX_PWD_LEN`
/// (0xFFFF_FFFF bytes); a password of at most 0x3fff_ffff characters (at most four
/// bytes each) is always hashed.
#[verifier::external_body]
fn argon2_hash(password: &str) -> (r: Result<String, HashFailure>)
    ensures
        password@.len() <= 0x3fff_ffff ==> r is Ok,
        r matches Ok(h) ==> password_matches(h@, password@) && is_argon2id_phc(h@),
{
    let salt = argon2::password_hash::SaltString::generate(&mut argon2::password_hash::rand_core::OsRng);
    argon2::password_hash::PasswordHasher::hash_password(&argon2::Argon2::default(), password.as_bytes(), &salt)
        .map(|h| h.to_string())
        .map_err(|_| HashFailure)
}

/// Hashes a password with Argon2id and a random salt; the hash is a PHC string that
/// accepts the password. It fails only on a password of more than 0x3fff_ffff characters.
pub fn hash_password(password: &str) -> (r: Result<String, HashFailure>)
    ensures
        password@.len() <= 0x3fff_ffff ==> r is Ok,
        r matches Ok(h) ==> password_matches(h@, password@) && is_argon2id_phc(h@),
{
    argon2_hash(password)
}

} // verus!
