//! Initialisation of the administrator account.
//!
//! If at least one admin account exists, initialisation is a no-op. Otherwise
//! an account is created with the username and password supplied in the
//! configuration, or, when the configuration holds none, with username `admin`
//! and a random password.

use crate::auth::Argon2Error;
use crate::config::BackendConfig;
use crate::password::{argon2_accepts, argon2_hash, argon2_phc, generate_salt, phc_parses, SALT_BYTES};
use crate::random_str::{generate_legible_string, is_legible};
use rand_chacha::ChaCha12Rng;
use vstd::prelude::*;
use vstd::utf8::encode_utf8;

verus! {

/// Default administrator username
pub const DEFAULT_ADMIN_USERNAME: &'static str = "admin";

/// Default length of the admin password, if one should be generated
pub const RANDOM_ADMIN_PW_LENGTH: usize = 12;

/// The default administrator username, as characters.
pub open spec fn default_admin_username() -> Seq<char> {
    seq!['a', 'd', 'm', 'i', 'n']
}

/// The credentials that a new admin account gets: those of the configuration
/// when it holds both, else `admin` and a random legible password of
/// `RANDOM_ADMIN_PW_LENGTH` characters.
pub fn admin_credentials(config: &BackendConfig, rng: &mut ChaCha12Rng) -> (r: (String, String))
    ensures
        config.admin_user_password matches Some((u, p)) ==> r.0@ == u@ && r.1@ == p@,
        config.admin_user_password is None ==> {
            &&& r.0@ == default_admin_username()
            &&& r.1@.len() == RANDOM_ADMIN_PW_LENGTH
            &&& is_legible(r.1@)
        },
{
    match &config.admin_user_password {
        Some((u, p)) => (u.clone(), p.clone()),
        None => {
            let name = DEFAULT_ADMIN_USERNAME.to_owned();
            proof {
                reveal_strlit("admin");
            }
            assert(name@ =~= default_admin_username());
            (name, generate_legible_string(rng, RANDOM_ADMIN_PW_LENGTH))
        },
    }
}

/// The longest password, in UTF-8 bytes, that Argon2 hashes (`MAX_PWD_LEN`).
pub const MAX_PASSWORD_BYTES: u64 = 0xFFFF_FFFF;

/// A character takes at most four bytes in UTF-8.
pub proof fn lemma_utf8_len_bound(chars: Seq<char>)
    ensures
        encode_utf8(chars).len() <= 4 * chars.len(),
    decreases chars.len(),
{
    if chars.len() > 0 {
        lemma_utf8_len_bound(chars.drop_first());
    }
}

/// Hashes the password with Argon2 under a fresh random salt, giving the PHC
/// string to store: the Argon2 PHC string of the password under some 16-byte
/// salt, which parses and against which Argon2 accepts the password.  Hashing
/// succeeds whenever the password has at most `MAX_PASSWORD_BYTES` bytes.
pub fn hash_admin_password(rng: &mut ChaCha12Rng, password: &str) -> (r: Result<
    String,
    Argon2Error,
>)
    ensures
        encode_utf8(password@).len() <= MAX_PASSWORD_BYTES ==> r is Ok,
        r matches Ok(phc) ==> {
            &&& exists|salt: Seq<u8>|
                #![trigger argon2_phc(password@, salt)]
                salt.len() == SALT_BYTES && phc@ == argon2_phc(password@, salt)
            &&& phc_parses(phc@)
            &&& argon2_accepts(password@, phc@)
        },
        r matches Err(e) ==> e is Hash,
{
    let salt = generate_salt(rng);
    match argon2_hash(password, &salt) {
        Ok(phc) => {
            assert(phc@ == argon2_phc(password@, salt@));
            Ok(phc)
        },
        Err(e) => Err(Argon2Error::Hash(e)),
    }
}

/// A new admin account, ready to be inserted when no admin exists yet.
pub struct NewAdminAccount {
    pub username: String,
    pub password: String,
    pub phc: String,
}

/// Prepares the admin account to create: its credentials (see
/// [`admin_credentials`]) and the hash of its password.
pub fn prepare_admin_account(config: &BackendConfig, rng: &mut ChaCha12Rng) -> (r: Result<
    NewAdminAccount,
    Argon2Error,
>)
    ensures
        r matches Ok(acct) ==> {
            &&& exists|salt: Seq<u8>|
                #![trigger argon2_phc(acct.password@, salt)]
                salt.len() == SALT_BYTES && acct.phc@ == argon2_phc(acct.password@, salt)
            &&& phc_parses(acct.phc@)
            &&& argon2_accepts(acct.password@, acct.phc@)
            &&& config.admin_user_password matches Some((u, p)) ==> acct.username@ == u@
                && acct.password@ == p@
            &&& config.admin_user_password is None ==> {
                &&& acct.username@ == default_admin_username()
                &&& acct.password@.len() == RANDOM_ADMIN_PW_LENGTH
                &&& is_legible(acct.password@)
            }
        },
        config.admin_user_password is None ==> r is Ok,
        config.admin_user_password matches Some((u, p)) && encode_utf8(p@).len()
            <= MAX_PASSWORD_BYTES ==> r is Ok,
        r matches Err(e) ==> e is Hash,
{
    let (username, password) = admin_credentials(config, rng);
    proof {
        lemma_utf8_len_bound(password@);
    }
    let phc = hash_admin_password(rng, password.as_str())?;
    Ok(NewAdminAccount { username, password, phc })
}

} // verus!
