//! Authentication domain logic: admin credentials and session tokens.

use crate::password::{argon2_accepts, argon2_verify, parse_phc, phc_parses};
use base64::engine::general_purpose::URL_SAFE_NO_PAD;
use base64::Engine;
use rand::Rng;
use rand_chacha::ChaCha12Rng;
use sha2::{Digest, Sha256};
use vstd::prelude::*;

verus! {

/// Error of the password hashing crate: either of its two error types.
#[derive(Copy, Clone, Debug, Eq, PartialEq)]
pub enum Argon2Error {
    Base(argon2::Error),
    Hash(argon2::password_hash::Error),
}

impl From<argon2::Error> for Argon2Error {
    fn from(e: argon2::Error) -> (r: Self) {
        Argon2Error::Base(e)
    }
}

impl vstd::std_specs::convert::FromSpecImpl<argon2::Error> for Argon2Error {
    open spec fn obeys_from_spec() -> bool {
        true
    }

    open spec fn from_spec(v: argon2::Error) -> Self {
        Argon2Error::Base(v)
    }
}

impl From<argon2::password_hash::Error> for Argon2Error {
    fn from(e: argon2::password_hash::Error) -> (r: Self) {
        Argon2Error::Hash(e)
    }
}

impl vstd::std_specs::convert::FromSpecImpl<argon2::password_hash::Error> for Argon2Error {
    open spec fn obeys_from_spec() -> bool {
        true
    }

    open spec fn from_spec(v: argon2::password_hash::Error) -> Self {
        Argon2Error::Hash(v)
    }
}

/// An admin account: its name, the PHC string of its password hash, and a tag
/// that identifies it to the caller.
#[derive(Debug)]
pub struct Admin<T> {
    username: String,
    pw_hash: String,
    tag: T,
}

impl<T> Admin<T> {
    /// The admin's name.
    pub closed spec fn username_view(&self) -> Seq<char> {
        self.username@
    }

    /// The PHC string of the admin's password hash.
    pub closed spec fn pw_hash_view(&self) -> Seq<char> {
        self.pw_hash@
    }

    /// The admin's tag.
    pub closed spec fn tag_view(&self) -> T {
        self.tag
    }

    pub fn new(username: String, pw_hash: String, tag: T) -> (r: Self)
        ensures
            r.username_view() == username@,
            r.pw_hash_view() == pw_hash@,
            r.tag_view() == tag,
    {
        Admin { username, pw_hash, tag }
    }

    /// Verify the user's password against the salted hash: an error when the
    /// stored hash is no PHC string, else whether Argon2 accepts the password.
    pub fn check_password(&self, password: &str) -> (r: Result<bool, Argon2Error>)
        ensures
            phc_parses(self.pw_hash_view()) ==> r == Ok::<bool, Argon2Error>(
                argon2_accepts(password@, self.pw_hash_view()),
            ),
            !phc_parses(self.pw_hash_view()) ==> r matches Err(Argon2Error::Hash(_)),
    {
        let parsed = match parse_phc(self.pw_hash.as_str()) {
            Ok(p) => p,
            Err(e) => return Err(Argon2Error::Hash(e)),
        };
        Ok(argon2_verify(password, &parsed))
    }

    pub fn username(&self) -> (r: &str)
        ensures
            r@ == self.username_view(),
    {
        self.username.as_str()
    }

    /// Get the tag object of this admin
    pub fn tag(&self) -> (r: &T)
        ensures
            *r == self.tag_view(),
    {
        &self.tag
    }
}

/// Number of bytes in a session token (128 bits).
pub const SESSION_TOKEN_BYTES: usize = 16;

/// What `base64`'s `URL_SAFE_NO_PAD` engine encodes the bytes to.
pub uninterp spec fn b64_url_encode(bytes: Seq<u8>) -> Seq<char>;

/// What `base64`'s `URL_SAFE_NO_PAD` engine decodes the text to; `None` when it
/// refuses the text.
pub uninterp spec fn b64_url_decode(text: Seq<char>) -> Option<Seq<u8>>;

/// The SHA-256 digest of the bytes.
pub uninterp spec fn sha256_digest(bytes: Seq<u8>) -> Seq<u8>;

/// The key under which the session for a cookie value is stored: the SHA-256
/// digest of the token that the value decodes to, `None` when it decodes to no
/// token.
pub open spec fn session_lookup_key(sid: Seq<char>) -> Option<Seq<u8>> {
    match b64_url_decode(sid) {
        Some(bytes) => if bytes.len() == SESSION_TOKEN_BYTES {
            Some(sha256_digest(bytes))
        } else {
            None
        },
        None => None,
    }
}

/// A character of the URL-safe base64 alphabet: `A-Z`, `a-z`, `0-9`, `-`, `_`.
pub open spec fn is_url_safe_b64_char(c: char) -> bool {
    ('A' <= c <= 'Z') || ('a' <= c <= 'z') || ('0' <= c <= '9') || c == '-' || c == '_'
}

/// Length of the unpadded base64 text of `n` bytes: four characters for each
/// three bytes, and two or three for a trailing one or two.
pub open spec fn b64_unpadded_len(n: nat) -> nat {
    (4 * n + 2) / 3
}

/// Calls `URL_SAFE_NO_PAD.encode(bytes)`.  Trusted to give `b64_url_encode` of
/// the bytes: unpadded text over the URL-safe alphabet (`alphabet::URL_SAFE`,
/// `NO_PAD`), of the length that `encoded_len` computes without padding, which
/// the same engine decodes back to the bytes (base64's documented round trip).  `encode` panics when the encoded length overflows `usize`,
/// which `requires` rules out.
#[verifier::external_body]
fn base64_url_encode(bytes: &[u8]) -> (r: String)
    requires
        bytes@.len() <= usize::MAX / 2,
    ensures
        r@ == b64_url_encode(bytes@),
        r@.len() == b64_unpadded_len(bytes@.len()),
        forall|i: int| 0 <= i < r@.len() ==> #[trigger] is_url_safe_b64_char(r@[i]),
        b64_url_decode(r@) == Some(bytes@),
{
    URL_SAFE_NO_PAD.encode(bytes)
}

/// Calls `URL_SAFE_NO_PAD.decode(text)`.  Trusted to give `b64_url_decode` of
/// the text: `None` where the engine returns an error.
#[verifier::external_body]
fn base64_url_decode(text: &str) -> (r: Option<Vec<u8>>)
    ensures
        match r {
            Some(v) => b64_url_decode(text@) == Some(v@),
            None => b64_url_decode(text@) is None,
        },
{
    URL_SAFE_NO_PAD.decode(text).ok()
}

/// Calls `sha2::Sha256::digest(bytes)`.  Trusted to give `sha256_digest` of the
/// bytes.
#[verifier::external_body]
fn sha256(bytes: &[u8]) -> (r: [u8; 32])
    ensures
        r@ == sha256_digest(bytes@),
{
    Sha256::digest(bytes).into()
}

/// Calls `rand::Rng::gen` for a byte array.  The bytes are chance; nothing is
/// stated of them.
#[verifier::external_body]
fn random_token_bytes(rng: &mut ChaCha12Rng) -> (r: [u8; SESSION_TOKEN_BYTES]) {
    rng.gen()
}

/// Session token
pub struct SessionToken {
    token: [u8; SESSION_TOKEN_BYTES],
}

impl View for SessionToken {
    type V = Seq<u8>;

    closed spec fn view(&self) -> Seq<u8> {
        self.token@
    }
}

impl SessionToken {
    /// A token always has `SESSION_TOKEN_BYTES` bytes.
    pub fn bytes(&self) -> (r: [u8; SESSION_TOKEN_BYTES])
        ensures
            r@ == self@,
            self@.len() == SESSION_TOKEN_BYTES,
    {
        self.token
    }

    /// Generate a new random session token
    pub fn generate(rng: &mut ChaCha12Rng) -> (r: Self)
        ensures
            r@.len() == SESSION_TOKEN_BYTES,
    {
        SessionToken { token: random_token_bytes(rng) }
    }

    /// Calculate a SHA-256 hash of the token
    pub fn sha256(&self) -> (r: [u8; 32])
        ensures
            r@ == sha256_digest(self@),
    {
        sha256(&self.token)
    }

    /// Construct a [`SessionToken`] from a byte slice
    pub fn from_bytes(bytes: &[u8]) -> (r: Option<Self>)
        ensures
            r is Some <==> bytes@.len() == SESSION_TOKEN_BYTES,
            r matches Some(t) ==> t@ == bytes@,
    {
        if bytes.len() != SESSION_TOKEN_BYTES {
            return None;
        }
        let mut token = [0u8; SESSION_TOKEN_BYTES];
        let mut i: usize = 0;
        while i < SESSION_TOKEN_BYTES
            invariant
                bytes@.len() == SESSION_TOKEN_BYTES,
                i <= SESSION_TOKEN_BYTES,
                forall|k: int| 0 <= k < i ==> token@[k] == bytes@[k],
            decreases SESSION_TOKEN_BYTES - i,
        {
            token[i] = bytes[i];
            i = i + 1;
        }
        assert(token@ =~= bytes@);
        Some(SessionToken { token })
    }

    /// Construct a [`SessionToken`] from a URL-safe base64 string without
    /// padding: `Some` exactly when the text decodes to a token's worth of bytes.
    pub fn from_base64(base64: &str) -> (r: Option<Self>)
        ensures
            r is Some <==> (b64_url_decode(base64@) matches Some(b) && b.len() == SESSION_TOKEN_BYTES),
            r matches Some(t) ==> b64_url_decode(base64@) == Some(t@),
    {
        let token = base64_url_decode(base64)?;
        Self::from_bytes(token.as_slice())
    }

    /// Encode a `SessionToken` as a base64 string: 22 URL-safe characters
    /// without padding.  The text decodes back to this token, so it leads to the
    /// session stored under the token's digest.
    pub fn base64_encode(&self) -> (r: String)
        ensures
            r@ == b64_url_encode(self@),
            r@.len() == 22,
            forall|i: int| 0 <= i < r@.len() ==> #[trigger] is_url_safe_b64_char(r@[i]),
            b64_url_decode(r@) == Some(self@),
            session_lookup_key(r@) == Some(sha256_digest(self@)),
    {
        base64_url_encode(&self.token)
    }
}

} // verus!
