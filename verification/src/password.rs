//! Password hashing and verification with Argon2.
//!
//! A password is stored only as a PHC string: algorithm, version,
//! parameters, salt and digest in one self-describing text. Hashing draws a
//! fresh random salt for every call; verification reads the parameters and
//! the salt back out of the stored text.

use vstd::prelude::*;
use argon2::Argon2;
use argon2::password_hash::PasswordHash;
use argon2::password_hash::PasswordHasher;
use argon2::password_hash::PasswordVerifier;
use argon2::password_hash::SaltString;
use crate::random::random_bytes;

verus! {

/// The error type of the `password-hash` crate, carried from the hashing
/// call to where it is mapped to `HashError`.
#[verifier::external_type_specification]
#[verifier::external_body]
pub struct ExPasswordHashError(argon2::password_hash::Error);

/// The PHC string that `Argon2::default().hash_password` gives for a
/// password under the salt with these bytes; `None` where it reports an
/// error.
pub uninterp spec fn argon2_phc(password: Seq<char>, salt: Seq<u8>) -> Option<Seq<char>>;

/// Whether `PasswordHash::new` accepts `encoded` as a PHC string.
pub uninterp spec fn phc_well_formed(encoded: Seq<char>) -> bool;

/// Whether `Argon2::default().verify_password` accepts `password` against
/// the PHC string `encoded`, for a well-formed `encoded`.
pub uninterp spec fn argon2_accepts(password: Seq<char>, encoded: Seq<char>) -> bool;

/// A stored hash matches a password when it is a well-formed PHC string and
/// Argon2, run with the parameters and salt the string carries, arrives at
/// the digest the string carries.
pub open spec fn password_matches(password: Seq<char>, encoded: Seq<char>) -> bool {
    phc_well_formed(encoded) && argon2_accepts(password, encoded)
}

/// Why a password could not be hashed.
#[derive(Clone, Copy, Debug, PartialEq, Eq, Structural)]
pub enum HashError {
    /// There is no usable salt: none could be drawn at random, or the
    /// bytes given are too few or too many.
    Salt,
    /// The hashing library reported an error.
    Hashing,
}

/// The fewest bytes a salt may have: Argon2 refuses fewer.
pub const MIN_SALT_BYTES: usize = 8;

/// The most bytes a salt may have: more do not fit the text form of a
/// salt in a PHC string.
pub const MAX_SALT_BYTES: usize = 48;

/// The number of random bytes in a salt that `hash` draws.
pub const SALT_BYTES: usize = 16;

/// Calls `Argon2::default().hash_password` under the salt that
/// `SaltString::encode_b64` makes of `salt`, and renders the result as a
/// PHC string. The result is named, since it depends on the password and
/// the salt alone. Beyond the name, the contract claims what the Argon2
/// documentation shows of every hash: the rendered string parses again,
/// and verifying the same password against it succeeds. A salt of fewer
/// than three bytes makes the call panic, and one of more than
/// `MAX_SALT_BYTES` cannot be encoded; the precondition keeps both out.
#[verifier::external_body]
fn argon2_hash(password: &str, salt: &[u8]) -> (r: Result<String, argon2::password_hash::Error>)
    requires
        MIN_SALT_BYTES <= salt@.len() <= MAX_SALT_BYTES,
    ensures
        match r {
            Ok(encoded) => {
                &&& argon2_phc(password@, salt@) == Some(encoded@)
                &&& phc_well_formed(encoded@)
                &&& argon2_accepts(password@, encoded@)
            },
            Err(_) => argon2_phc(password@, salt@) is None,
        },
{
    let salt = SaltString::encode_b64(salt)?;
    let hash = Argon2::default().hash_password(password.as_bytes(), &salt)?;
    Ok(hash.to_string())
}

/// Calls `PasswordHash::new` and reports whether it accepted the text. The
/// answer depends on the text alone and is named `phc_well_formed`;
/// nothing else is claimed of it.
#[verifier::external_body]
fn phc_parses(encoded: &str) -> (r: bool)
    ensures
        r == phc_well_formed(encoded@),
{
    PasswordHash::new(encoded).is_ok()
}

/// Calls `Argon2::default().verify_password` on what `PasswordHash::new`
/// makes of `encoded`, and reports whether it returned `Ok`. The answer
/// depends on the password and the text alone and is named
/// `argon2_accepts`; nothing else is claimed of it. The text must be one
/// that parses, which `verify` makes sure of first.
#[verifier::external_body]
fn argon2_verify(password: &str, encoded: &str) -> (r: bool)
    requires
        phc_well_formed(encoded@),
    ensures
        r == argon2_accepts(password@, encoded@),
{
    match PasswordHash::new(encoded) {
        Ok(parsed) => Argon2::default().verify_password(password.as_bytes(), &parsed).is_ok(),
        Err(_) => false,
    }
}

/// What hashing under a given salt comes to: a salt of unusable length is
/// refused, and otherwise the outcome is Argon2's.
pub open spec fn salted_hash(password: Seq<char>, salt: Seq<u8>) -> Result<Seq<char>, HashError> {
    if salt.len() < MIN_SALT_BYTES || salt.len() > MAX_SALT_BYTES {
        Err(HashError::Salt)
    } else {
        match argon2_phc(password, salt) {
            Some(encoded) => Ok(encoded),
            None => Err(HashError::Hashing),
        }
    }
}

/// Hashes `password` under the salt with the given bytes and returns the
/// PHC string.
///
/// The string depends on the password and the salt alone, and it matches
/// the password it was made from. A salt of fewer than `MIN_SALT_BYTES` or
/// more than `MAX_SALT_BYTES` bytes is refused.
pub fn hash_with_salt(password: &str, salt: &[u8]) -> (r: Result<String, HashError>)
    ensures
        match r {
            Ok(encoded) => salted_hash(password@, salt@) == Ok::<Seq<char>, HashError>(encoded@)
                && password_matches(password@, encoded@),
            Err(e) => salted_hash(password@, salt@) == Err::<Seq<char>, HashError>(e),
        },
{
    if salt.len() < MIN_SALT_BYTES || salt.len() > MAX_SALT_BYTES {
        return Err(HashError::Salt);
    }
    match argon2_hash(password, salt) {
        Ok(encoded) => Ok(encoded),
        Err(_) => Err(HashError::Hashing),
    }
}

/// What hashing comes to for each outcome of the draw of a salt: where no
/// salt could be drawn the failure is `Salt`, and where one was drawn the
/// outcome is that of hashing under it.
pub open spec fn drawn_hash(password: Seq<char>, drawn: Option<Seq<u8>>) -> Result<
    Seq<char>,
    HashError,
> {
    match drawn {
        Some(salt) => salted_hash(password, salt),
        None => Err(HashError::Salt),
    }
}

/// The outcome of hashing, with the text of the string it gave.
pub open spec fn hashed_text(r: Result<String, HashError>) -> Result<Seq<char>, HashError> {
    match r {
        Ok(encoded) => Ok(encoded@),
        Err(e) => Err(e),
    }
}

/// Hashes `password` under a fresh random salt of `SALT_BYTES` bytes and
/// returns the PHC string.
///
/// Each call draws its own salt, so two calls on one password are not
/// expected to give the same string. Every string returned matches the
/// password it was made from. The outcome is the one that `drawn_hash`
/// gives for what was drawn: a string is the Argon2 hash under the salt
/// drawn, `Salt` is reported only when no salt could be drawn, and
/// `Hashing` only when Argon2 refused the password under the salt drawn.
pub fn hash(password: &str) -> (r: Result<String, HashError>)
    ensures
        r matches Ok(encoded) ==> password_matches(password@, encoded@),
        exists|drawn: Option<Seq<u8>>|
            {
                &&& drawn matches Some(salt) ==> salt.len() == SALT_BYTES
                &&& #[trigger] drawn_hash(password@, drawn) == hashed_text(r)
            },
{
    match random_bytes() {
        Some(salt) => {
            let r = hash_with_salt(password, salt.as_slice());
            assert(drawn_hash(password@, Some(salt@)) == hashed_text(r));
            r
        },
        None => {
            assert(drawn_hash(password@, None) == hashed_text(Err(HashError::Salt)));
            Err(HashError::Salt)
        },
    }
}

/// Tells whether `password` matches the stored PHC string `hash`.
///
/// A string that is not a well-formed PHC string matches no password: the
/// caller cannot tell a corrupt hash from a wrong password.
pub fn verify(password: &str, hash: &str) -> (r: bool)
    ensures
        r == password_matches(password@, hash@),
{
    if !phc_parses(hash) {
        return false;
    }
    argon2_verify(password, hash)
}

} // verus!
