//! Decisions of the web layer: who the current user is, how errors are
//! answered, and what the login pages do.

use crate::auth::{
    b64_url_encode, is_url_safe_b64_char, session_lookup_key, sha256_digest, Admin, Argon2Error, SessionToken,
    SESSION_TOKEN_BYTES,
};
use crate::db::{AdminId, PlayerId, SessionRow};
use crate::password::{argon2_accepts, phc_parses};
use rand_chacha::ChaCha12Rng;
use vstd::prelude::*;

verus! {

/// HTTP status `401 Unauthorized`.
pub const STATUS_UNAUTHORIZED: u16 = 401;

/// HTTP status `500 Internal Server Error`.
pub const STATUS_INTERNAL_SERVER_ERROR: u16 = 500;

/// Why a request could not be authenticated.
#[derive(Debug, Clone, Copy, PartialEq, Eq, Structural)]
pub enum AuthError {
    NoSession,
    InvalidSession,
    BadCredentials,
    Internal,
}

impl AuthError {
    /// The status code of the response: unauthorized, except for internal
    /// failures.
    pub fn status_code(&self) -> (r: u16)
        ensures
            r == (if *self is Internal {
                STATUS_INTERNAL_SERVER_ERROR
            } else {
                STATUS_UNAUTHORIZED
            }),
    {
        match self {
            AuthError::NoSession | AuthError::InvalidSession | AuthError::BadCredentials => {
                STATUS_UNAUTHORIZED
            },
            AuthError::Internal => STATUS_INTERNAL_SERVER_ERROR,
        }
    }
}

/// Error of a request handler.
#[derive(Debug)]
pub enum AppError {
    /// The database failed; the text describes how.
    DbError(String),
    HashingError(Argon2Error),
    AuthError(AuthError),
}

impl From<AuthError> for AppError {
    fn from(e: AuthError) -> (r: Self) {
        AppError::AuthError(e)
    }
}

impl vstd::std_specs::convert::FromSpecImpl<AuthError> for AppError {
    open spec fn obeys_from_spec() -> bool {
        true
    }

    open spec fn from_spec(v: AuthError) -> Self {
        AppError::AuthError(v)
    }
}

impl From<Argon2Error> for AppError {
    fn from(e: Argon2Error) -> (r: Self) {
        AppError::HashingError(e)
    }
}

impl vstd::std_specs::convert::FromSpecImpl<Argon2Error> for AppError {
    open spec fn obeys_from_spec() -> bool {
        true
    }

    open spec fn from_spec(v: Argon2Error) -> Self {
        AppError::HashingError(v)
    }
}

impl AppError {
    /// The status code of the response: an internal error for database and
    /// hashing failures, and that of the authentication error otherwise.
    pub fn status_code(&self) -> (r: u16)
        ensures
            match self {
                AppError::AuthError(e) => r == (if e is Internal {
                    STATUS_INTERNAL_SERVER_ERROR
                } else {
                    STATUS_UNAUTHORIZED
                }),
                _ => r == STATUS_INTERNAL_SERVER_ERROR,
            },
    {
        match self {
            AppError::DbError(_) => STATUS_INTERNAL_SERVER_ERROR,
            AppError::HashingError(_) => STATUS_INTERNAL_SERVER_ERROR,
            AppError::AuthError(e) => e.status_code(),
        }
    }
}

/// The current logged-in user. In the event that no user session exists, a
/// handler that needs one bounces the request.
#[derive(Debug, Clone, Copy, PartialEq, Eq, Structural)]
pub enum CurrentUser {
    Admin(AdminId),
    Player(PlayerId),
}

/// A user which might be logged in. This is similar to [`CurrentUser`], but
/// does not bounce the request if no session is found, holding `None`.
#[derive(Debug, Clone, Copy, PartialEq, Eq, Structural)]
pub struct MaybeCurrentUser(pub Option<CurrentUser>);

/// What the session found for a valid token says of its user: `NoSession`
/// when none matched.
pub open spec fn session_user(session: Option<SessionRow>) -> Result<Option<CurrentUser>, AuthError> {
    match session {
        None => Err(AuthError::NoSession),
        Some(row) => match row.admin_id {
            Some(admin_id) => Ok(Some(CurrentUser::Admin(admin_id))),
            None => match row.player_id {
                Some(player_id) => Ok(Some(CurrentUser::Player(player_id))),
                None => Err(AuthError::Internal),
            },
        },
    }
}

/// The digest under which the session of a cookie value is looked up; an
/// `InvalidSession` error when the value is no encoded token.
pub fn session_lookup(sid: &str) -> (r: Result<[u8; 32], AuthError>)
    ensures
        match session_lookup_key(sid@) {
            Some(key) => r matches Ok(h) && h@ == key,
            None => r == Err::<[u8; 32], AuthError>(AuthError::InvalidSession),
        },
{
    match SessionToken::from_base64(sid) {
        Some(tok) => Ok(tok.sha256()),
        None => Err(AuthError::InvalidSession),
    }
}

/// The user of the session found for a valid token: `NoSession` when no
/// session matched, the admin when the session names one, else the player; a
/// session that names neither breaks the database's invariant and is an
/// internal error.
pub fn user_from_session(session: &Option<SessionRow>) -> (r: Result<Option<CurrentUser>, AuthError>)
    ensures
        r == session_user(*session),
        session is None ==> r == Err::<Option<CurrentUser>, AuthError>(AuthError::NoSession),
        forall|row: SessionRow, a: AdminId|
            *session == Some(row) && row.admin_id == Some(a) ==> r == Ok::<
                Option<CurrentUser>,
                AuthError,
            >(Some(CurrentUser::Admin(a))),
        forall|row: SessionRow, p: PlayerId|
            *session == Some(row) && row.admin_id is None && row.player_id == Some(p) ==> r
                == Ok::<Option<CurrentUser>, AuthError>(Some(CurrentUser::Player(p))),
        forall|row: SessionRow|
            *session == Some(row) && row.admin_id is None && row.player_id is None ==> r == Err::<
                Option<CurrentUser>,
                AuthError,
            >(AuthError::Internal),
{
    match session {
        None => Err(AuthError::NoSession),
        Some(row) => {
            if let Some(admin_id) = row.admin_id {
                Ok(Some(CurrentUser::Admin(admin_id)))
            } else if let Some(player_id) = row.player_id {
                Ok(Some(CurrentUser::Player(player_id)))
            } else {
                Err(AuthError::Internal)
            }
        },
    }
}

impl CurrentUser {
    /// A user who must be logged in: the request is bounced with
    /// `InvalidSession` when the token matched no session.
    pub fn from_validated(validated: Result<Option<CurrentUser>, AuthError>) -> (r: Result<
        CurrentUser,
        AuthError,
    >)
        ensures
            r == (match validated {
                Ok(Some(user)) => Ok(user),
                Ok(None) => Err(AuthError::InvalidSession),
                Err(e) => Err(e),
            }),
    {
        match validated {
            Ok(Some(user)) => Ok(user),
            Ok(None) => Err(AuthError::InvalidSession),
            Err(e) => Err(e),
        }
    }

    /// A request without a session cookie is bounced with `NoSession`.
    pub fn without_cookie() -> (r: Result<CurrentUser, AuthError>)
        ensures
            r == Err::<CurrentUser, AuthError>(AuthError::NoSession),
    {
        Err(AuthError::NoSession)
    }
}

impl MaybeCurrentUser {
    /// A user who may be logged in, once the token was checked: a token that
    /// matched no session does not bounce the request but gives no user.
    pub fn from_validated(validated: Result<Option<CurrentUser>, AuthError>) -> (r: Result<
        MaybeCurrentUser,
        AuthError,
    >)
        ensures
            r == (match validated {
                Ok(user) => Ok(MaybeCurrentUser(user)),
                Err(AuthError::NoSession) => Ok(MaybeCurrentUser(None)),
                Err(e) => Err(e),
            }),
    {
        match validated {
            Ok(user) => Ok(MaybeCurrentUser(user)),
            Err(AuthError::NoSession) => Ok(MaybeCurrentUser(None)),
            Err(e) => Err(e),
        }
    }

    /// A request without a session cookie has no user.
    pub fn without_cookie() -> (r: Result<MaybeCurrentUser, AuthError>)
        ensures
            r == Ok::<MaybeCurrentUser, AuthError>(MaybeCurrentUser(None)),
    {
        Ok(MaybeCurrentUser(None))
    }
}

/// What the login page shows.
#[derive(Debug, Clone, Copy, PartialEq, Eq, Structural)]
pub enum LoginPage {
    /// The user is an admin already: go to the landing page.
    RedirectHome,
    /// Show the login form.
    Form,
}

/// Send login form to client, unless an admin is logged in already.
pub fn login_get(user: &MaybeCurrentUser) -> (r: LoginPage)
    ensures
        r == (if user.0 matches Some(CurrentUser::Admin(_)) {
            LoginPage::RedirectHome
        } else {
            LoginPage::Form
        }),
{
    match user.0 {
        Some(CurrentUser::Admin(_)) => LoginPage::RedirectHome,
        _ => LoginPage::Form,
    }
}

/// Law: once the cookie issued at login (see [`issue_admin_session`]) has led
/// to the stored session of an admin, the request's user is that admin.
pub proof fn lemma_issued_session_recognizes_admin(
    sid: Seq<char>,
    token_hash: Seq<u8>,
    row: SessionRow,
    admin_id: AdminId,
)
    requires
        session_lookup_key(sid) == Some(token_hash),
        row.token_hash@ == token_hash,
        row.admin_id == Some(admin_id),
    ensures
        session_user(Some(row)) == Ok::<Option<CurrentUser>, AuthError>(
            Some(CurrentUser::Admin(admin_id)),
        ),
{
}

/// Law: a session that names a player and no admin belongs to that player,
/// whatever its game, token digest and timestamps.
pub proof fn lemma_player_session_recognizes_player(row: SessionRow, player_id: PlayerId)
    requires
        row.admin_id is None,
        row.player_id == Some(player_id),
    ensures
        session_user(Some(row)) == Ok::<Option<CurrentUser>, AuthError>(
            Some(CurrentUser::Player(player_id)),
        ),
{
}

/// Law: a session that names an admin belongs to that admin, whether or not it
/// also names a player.
pub proof fn lemma_admin_session_recognizes_admin(row: SessionRow, admin_id: AdminId)
    requires
        row.admin_id == Some(admin_id),
    ensures
        session_user(Some(row)) == Ok::<Option<CurrentUser>, AuthError>(
            Some(CurrentUser::Admin(admin_id)),
        ),
{
}

/// How a login attempt ends.
pub enum LoginVerdict {
    /// The password is right: log in as this admin.
    Accepted(AdminId),
    /// No such admin, or the wrong password.
    Rejected,
    /// The stored password hash is no PHC string.
    HashUnreadable,
}

/// The verdict on a login with `password` for the admin found under the given
/// name, if any.
pub open spec fn login_verdict(admin: Option<Admin<AdminId>>, password: Seq<char>) -> LoginVerdict {
    match admin {
        None => LoginVerdict::Rejected,
        Some(a) => if !phc_parses(a.pw_hash_view()) {
            LoginVerdict::HashUnreadable
        } else if argon2_accepts(password, a.pw_hash_view()) {
            LoginVerdict::Accepted(a.tag_view())
        } else {
            LoginVerdict::Rejected
        },
    }
}

/// Auth flow for registered admin login: the admin's id when the password is
/// right, `BadCredentials` when there is no such admin or the password is
/// wrong, and the hashing error when the stored hash cannot be read.
pub fn login_outcome(admin: &Option<Admin<AdminId>>, password: &str) -> (r: Result<AdminId, AppError>)
    ensures
        match login_verdict(*admin, password@) {
            LoginVerdict::Accepted(id) => r == Ok::<AdminId, AppError>(id),
            LoginVerdict::Rejected => r == Err::<AdminId, AppError>(
                AppError::AuthError(AuthError::BadCredentials),
            ),
            LoginVerdict::HashUnreadable => r matches Err(
                AppError::HashingError(Argon2Error::Hash(_)),
            ),
        },
{
    match admin {
        Some(a) => {
            match a.check_password(password) {
                Ok(true) => Ok(*a.tag()),
                Ok(false) => Err(AppError::AuthError(AuthError::BadCredentials)),
                Err(e) => Err(AppError::HashingError(e)),
            }
        },
        None => Err(AppError::AuthError(AuthError::BadCredentials)),
    }
}

/// Law: an admin whose stored hash was made from a password (it parses and
/// Argon2 accepts the password against it, as `prepare_admin_account` ensures)
/// logs in with that password.
pub proof fn lemma_hashed_password_logs_in(admin: Admin<AdminId>, password: Seq<char>)
    requires
        phc_parses(admin.pw_hash_view()),
        argon2_accepts(password, admin.pw_hash_view()),
    ensures
        login_verdict(Some(admin), password) == LoginVerdict::Accepted(admin.tag_view()),
{
}

/// `SameSite` attribute of a cookie.
#[derive(Debug, Clone, Copy, PartialEq, Eq, Structural)]
pub enum SameSite {
    Strict,
    Lax,
    Unrestricted,
}

/// A cookie to set on the response.
pub struct SessionCookie {
    pub name: String,
    pub value: String,
    pub http_only: bool,
    pub secure: bool,
    pub same_site: SameSite,
    pub path: String,
}

/// The name of the session cookie.
pub open spec fn session_cookie_name() -> Seq<char> {
    seq!['s', 'i', 'd']
}

/// A new admin session: the digest to store, and the cookie that carries the
/// token.
pub struct IssuedSession {
    pub admin_id: AdminId,
    pub token_hash: [u8; 32],
    pub cookie: SessionCookie,
}

/// Issues a session for a logged-in admin: a fresh token, whose digest is
/// stored and whose base64 text goes into an HTTP-only, secure, `Lax` cookie
/// named `sid` for the whole site.  The cookie's value leads back to the stored
/// digest.
pub fn issue_admin_session(rng: &mut ChaCha12Rng, admin_id: AdminId) -> (r: IssuedSession)
    ensures
        r.admin_id == admin_id,
        exists|token: Seq<u8>|
            #![trigger b64_url_encode(token)]
            token.len() == SESSION_TOKEN_BYTES && r.cookie.value@ == b64_url_encode(token)
                && r.token_hash@ == sha256_digest(token),
        r.cookie.value@.len() == 22,
        forall|i: int|
            0 <= i < r.cookie.value@.len() ==> #[trigger] is_url_safe_b64_char(r.cookie.value@[i]),
        session_lookup_key(r.cookie.value@) == Some(r.token_hash@),
        r.cookie.name@ == session_cookie_name(),
        r.cookie.path@ == seq!['/'],
        r.cookie.http_only,
        r.cookie.secure,
        r.cookie.same_site == SameSite::Lax,
{
    let tok = SessionToken::generate(rng);
    let token_hash = tok.sha256();
    let value = tok.base64_encode();
    let name = "sid".to_owned();
    let path = "/".to_owned();
    proof {
        reveal_strlit("sid");
        reveal_strlit("/");
    }
    assert(name@ =~= session_cookie_name());
    assert(path@ =~= seq!['/']);
    IssuedSession {
        admin_id,
        token_hash,
        cookie: SessionCookie {
            name,
            value,
            http_only: true,
            secure: true,
            same_site: SameSite::Lax,
            path,
        },
    }
}

/// Page for the admin dashboard.
pub struct DashboardTemplate<'s> {
    pub user: &'s str,
}

impl<'s> DashboardTemplate<'s> {
    pub fn new(user: &'s str) -> (r: Self)
        ensures
            r.user@ == user@,
    {
        DashboardTemplate { user }
    }
}

} // verus!
