//! Argon2 password hashes in the PHC string format.

use argon2::password_hash::{PasswordHash, PasswordHasher, PasswordVerifier, SaltString};
use argon2::Argon2;
use rand::RngCore;
use rand_chacha::ChaCha12Rng;
use vstd::prelude::*;
use vstd::utf8::encode_utf8;

verus! {

/// `argon2::Error`; opaque here.
#[verifier::external_type_specification]
#[verifier::external_body]
pub struct ExArgon2Error(argon2::Error);

/// `argon2::password_hash::Error`; opaque here.
#[verifier::external_type_specification]
#[verifier::external_body]
pub struct ExPasswordHashError(argon2::password_hash::Error);

/// `argon2::password_hash::PasswordHash`; opaque here.
#[verifier::external_type_specification]
#[verifier::external_body]
pub struct ExPasswordHash<'a>(PasswordHash<'a>);

/// Whether `PasswordHash::new` parses the text as a PHC string.
pub uninterp spec fn phc_parses(phc: Seq<char>) -> bool;

/// Whether `Argon2::default().verify_password` accepts the password (taken as
/// its UTF-8 bytes) against the hash parsed from the PHC string.
pub uninterp spec fn argon2_accepts(password: Seq<char>, phc: Seq<char>) -> bool;

/// A PHC string together with the `PasswordHash` parsed from it.  Its fields are
/// private to this module, and `parse_phc` is the only place that builds one, so
/// the parsed hash always comes from `phc`.
pub struct ParsedPhc<'a> {
    phc: &'a str,
    hash: PasswordHash<'a>,
}

impl<'a> ParsedPhc<'a> {
    /// The PHC string that was parsed.
    pub closed spec fn source(&self) -> Seq<char> {
        self.phc@
    }
}

/// Calls `PasswordHash::new(phc)`.  Trusted to succeed exactly when the text
/// parses (the name `phc_parses`), and to keep the text beside the parsed hash.
#[verifier::external_body]
pub fn parse_phc<'a>(phc: &'a str) -> (r: Result<ParsedPhc<'a>, argon2::password_hash::Error>)
    ensures
        r is Ok <==> phc_parses(phc@),
        r matches Ok(p) ==> p.source() == phc@,
{
    match PasswordHash::new(phc) {
        Ok(hash) => Ok(ParsedPhc { phc, hash }),
        Err(e) => Err(e),
    }
}

/// Calls `Argon2::default().verify_password(password.as_bytes(), hash)` and
/// reports whether it returned `Ok`.  Trusted to return `argon2_accepts` of the
/// password and the string the hash was parsed from.
#[verifier::external_body]
pub fn argon2_verify(password: &str, parsed: &ParsedPhc) -> (r: bool)
    ensures
        r == argon2_accepts(password@, parsed.source()),
{
    Argon2::default().verify_password(password.as_bytes(), &parsed.hash).is_ok()
}

/// Number of random bytes in a salt, as `SaltString::generate` draws them.
pub const SALT_BYTES: usize = 16;

/// Calls `rand::RngCore::fill_bytes` on `SALT_BYTES` bytes, the draw that
/// `SaltString::generate` makes.  The bytes are chance; nothing is stated of
/// them.
#[verifier::external_body]
pub fn generate_salt(rng: &mut ChaCha12Rng) -> (r: [u8; SALT_BYTES]) {
    let mut bytes = [0u8; SALT_BYTES];
    rng.fill_bytes(&mut bytes);
    bytes
}

/// The PHC string of `Argon2::default().hash_password` for the password (as its
/// UTF-8 bytes) under the salt made of these bytes.
pub uninterp spec fn argon2_phc(password: Seq<char>, salt: Seq<u8>) -> Seq<char>;

/// Calls `SaltString::encode_b64(salt)` and
/// `Argon2::default().hash_password(password.as_bytes(), &salt)`, and renders
/// the hash as a PHC string.  Trusted to give `argon2_phc` of the password and
/// the salt bytes, a string that parses and that `verify_password` accepts for
/// the same password (the round trip that the `argon2` documentation shows).
/// Sixteen bytes always encode to a salt of 22 B64 characters, which decode
/// back to 16 bytes, within Argon2's salt limits (8 to 0xFFFFFFFF bytes); so, as
/// `verify_inputs` in argon2's source shows, hashing fails only for a password
/// longer than `MAX_PWD_LEN` (0xFFFFFFFF) bytes.
#[verifier::external_body]
pub fn argon2_hash(password: &str, salt: &[u8; SALT_BYTES]) -> (r: Result<
    String,
    argon2::password_hash::Error,
>)
    ensures
        encode_utf8(password@).len() <= 0xFFFF_FFFF ==> r is Ok,
        r matches Ok(phc) ==> {
            &&& phc@ == argon2_phc(password@, salt@)
            &&& phc_parses(phc@)
            &&& argon2_accepts(password@, phc@)
        },
{
    let salt = SaltString::encode_b64(salt)?;
    match Argon2::default().hash_password(password.as_bytes(), &salt) {
        Ok(hash) => Ok(hash.to_string()),
        Err(e) => Err(e),
    }
}

} // verus!
