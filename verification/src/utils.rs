//! Password utilities for the operator account: hashing and verification
//! through the Argon2 password-hashing crate, and random password
//! generation. The cryptography itself is the outside crate's work; here it
//! stands behind trusted declarations, and the decisions around it are
//! verified.

use vstd::prelude::*;

use argon2::PasswordHasher;
use argon2::PasswordVerifier;

use crate::models::User;

verus! {

/// The ways a password operation can fail for a caller.
#[derive(Clone, Copy, Debug, PartialEq, Eq, Structural)]
pub enum PasswordError {
    /// The stored hash could not be used: it does not parse as a PHC string
    /// or names an unsupported algorithm, version or parameter set.
    UnusableHash,
    /// The hashing function itself reported a failure.
    HashingFailed,
}

/// The password-hashing crate's own error type, as carried through the
/// trusted wrappers below before it is mapped to `PasswordError`.
#[verifier::external_type_specification]
#[verifier::external_body]
pub struct ExPasswordHashError(argon2::password_hash::Error);

/// Whether a stored hash string can be verified against at all: it parses
/// as a PHC string and names a supported Argon2 configuration. A function
/// of the string alone; its value on a given string is fixed by the outside
/// crate and not restated here.
pub uninterp spec fn argon2_hash_usable(hash: Seq<char>) -> bool;

/// The Argon2 verdict for a stored hash and a presented password: whether
/// recomputing the hash of the password, under the salt and parameters the
/// stored string carries, reproduces the stored digest. A function of the
/// two strings alone.
pub uninterp spec fn argon2_accepts(hash: Seq<char>, password: Seq<char>) -> bool;

/// Relies on `argon2::Argon2::verify_password` (the `PasswordVerifier<str>`
/// impl): it parses the stored PHC string, recomputes the hash of the
/// presented password under the stored salt and parameters, and compares.
/// `PasswordInvalid` is the mismatch verdict; any other error means the
/// stored string was not usable, apart from resource failures, so an error
/// result is not read as a verdict here.
#[verifier::external_body]
fn verify_with_argon2(hash: &str, password: &str) -> (r: Result<
    bool,
    argon2::password_hash::Error,
>)
    ensures
        r matches Ok(b) ==> argon2_hash_usable(hash@) && b == argon2_accepts(hash@, password@),
        !argon2_hash_usable(hash@) ==> r is Err,
{
    match argon2::Argon2::default().verify_password(password.as_bytes(), hash) {
        Ok(()) => Ok(true),
        Err(argon2::password_hash::Error::PasswordInvalid) => Ok(false),
        Err(e) => Err(e),
    }
}

/// Relies on `argon2::Argon2::hash_password` (the `PasswordHasher` impl):
/// it hashes the password under a fresh random salt with the default
/// parameters and encodes the result as a PHC string. The crate's stated
/// contract is that the string it returns verifies against the same
/// password; nothing is assumed about which salt was drawn.
#[verifier::external_body]
fn hash_with_argon2(password: &str) -> (r: Result<String, argon2::password_hash::Error>)
    ensures
        r matches Ok(h) ==> argon2_hash_usable(h@) && argon2_accepts(h@, password@),
{
    match argon2::Argon2::default().hash_password(password.as_bytes()) {
        Ok(h) => Ok(h.to_string()),
        Err(e) => Err(e),
    }
}

/// Hashes a plaintext password for storage. On success the returned PHC
/// string is usable and verifies against the same password.
pub fn hash_password(password: &str) -> (r: Result<String, PasswordError>)
    ensures
        r matches Ok(h) ==> argon2_hash_usable(h@) && argon2_accepts(h@, password@),
        r is Err ==> r->Err_0 == PasswordError::HashingFailed,
{
    match hash_with_argon2(password) {
        Ok(h) => Ok(h),
        Err(_) => Err(PasswordError::HashingFailed),
    }
}

/// Verifies a plaintext password against a stored hash. `Ok(b)` is the
/// Argon2 verdict; an unusable stored hash is reported as an error, never
/// as a verdict.
pub fn verify_password(hash: &str, password: &str) -> (r: Result<bool, PasswordError>)
    ensures
        r matches Ok(b) ==> argon2_hash_usable(hash@) && b == argon2_accepts(hash@, password@),
        !argon2_hash_usable(hash@) ==> r is Err,
        r is Err ==> r->Err_0 == PasswordError::UnusableHash,
{
    match verify_with_argon2(hash, password) {
        Ok(b) => Ok(b),
        Err(_) => Err(PasswordError::UnusableHash),
    }
}

/// The operator-login decision: the account must exist and the presented
/// password must verify against its stored hash. A missing account, a
/// mismatch, and an unusable stored hash are all the same refusal. Never
/// accepts a password the stored hash does not accept.
pub fn check_login(user: Option<&User>, password: &str) -> (r: bool)
    ensures
        r ==> user is Some && argon2_accepts(user->0.password_hash@, password@),
        user is None ==> !r,
        user matches Some(u) && !argon2_accepts(u.password_hash@, password@) ==> !r,
{
    match user {
        None => false,
        Some(u) => match verify_password(u.password_hash.as_str(), password) {
            Ok(b) => b,
            Err(_) => false,
        },
    }
}

/// Whether a character is one of the sixty-two alphanumeric ASCII
/// characters.
pub open spec fn spec_is_alphanumeric(c: char) -> bool {
    ('A' <= c && c <= 'Z') || ('a' <= c && c <= 'z') || ('0' <= c && c <= '9')
}

/// Relies on `rand::distr::Alphanumeric` with `SampleString::sample_string`:
/// it builds a string of exactly `len` characters, each drawn from A–Z,
/// a–z and 0–9. Nothing is assumed about which characters come out.
#[verifier::external_body]
fn sample_alphanumeric(len: usize) -> (r: String)
    ensures
        r@.len() == len,
        forall|i: int| 0 <= i < r@.len() ==> spec_is_alphanumeric(r@[i]),
{
    rand::distr::SampleString::sample_string(&rand::distr::Alphanumeric, &mut rand::rng(), len)
}

/// A freshly drawn random password of `len` alphanumeric characters.
pub fn generate_random_password(len: usize) -> (r: String)
    ensures
        r@.len() == len,
        forall|i: int| 0 <= i < r@.len() ==> spec_is_alphanumeric(r@[i]),
{
    sample_alphanumeric(len)
}

} // verus!
