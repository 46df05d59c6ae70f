use rand_chacha::rand_core::SeedableRng;
use rand_chacha::ChaCha12Rng;
use trivia::admin::hash_admin_password;
use trivia::auth::{Admin, Argon2Error};
use trivia::db::{AdminId, PlayerId, SessionRow};
use trivia::routes::{
    issue_admin_session, login_get, login_outcome, session_lookup, user_from_session, AppError,
    AuthError, CurrentUser, DashboardTemplate, LoginPage, MaybeCurrentUser, SameSite,
};

fn row(admin: Option<AdminId>, player: Option<PlayerId>) -> SessionRow {
    SessionRow::from_columns(vec![0; 32], None, admin, player, 0, 100).unwrap()
}

#[test]
fn auth_errors_map_to_status_codes() {
    assert_eq!(AuthError::NoSession.status_code(), 401);
    assert_eq!(AuthError::InvalidSession.status_code(), 401);
    assert_eq!(AuthError::BadCredentials.status_code(), 401);
    assert_eq!(AuthError::Internal.status_code(), 500);
}

#[test]
fn app_errors_map_to_status_codes() {
    assert_eq!(AppError::DbError("down".to_string()).status_code(), 500);
    let hashing = AppError::HashingError(Argon2Error::Hash(argon2::password_hash::Error::Password));
    assert_eq!(hashing.status_code(), 500);
    assert_eq!(AppError::from(AuthError::BadCredentials).status_code(), 401);
    assert_eq!(AppError::from(AuthError::Internal).status_code(), 500);
}

#[test]
fn issued_cookie_leads_back_to_the_stored_session() {
    let mut rng = ChaCha12Rng::seed_from_u64(21);
    let issued = issue_admin_session(&mut rng, AdminId(1));
    assert_eq!(issued.admin_id, AdminId(1));
    assert_eq!(session_lookup(&issued.cookie.value), Ok(issued.token_hash));
    assert_eq!(issued.cookie.name, "sid");
    assert_eq!(issued.cookie.path, "/");
    assert!(issued.cookie.http_only && issued.cookie.secure);
    assert_eq!(issued.cookie.same_site, SameSite::Lax);
}

#[test]
fn malformed_session_ids_are_invalid() {
    assert_eq!(session_lookup("%%%"), Err(AuthError::InvalidSession));
    assert_eq!(session_lookup("AAAA"), Err(AuthError::InvalidSession));
}

#[test]
fn sessions_name_their_user() {
    assert_eq!(user_from_session(&None), Err(AuthError::NoSession));
    assert_eq!(
        user_from_session(&Some(row(Some(AdminId(2)), Some(PlayerId(3))))),
        Ok(Some(CurrentUser::Admin(AdminId(2))))
    );
    assert_eq!(
        user_from_session(&Some(row(None, Some(PlayerId(3))))),
        Ok(Some(CurrentUser::Player(PlayerId(3))))
    );
    assert_eq!(user_from_session(&Some(row(None, None))), Err(AuthError::Internal));
}

#[test]
fn required_user_bounces_missing_sessions() {
    assert_eq!(CurrentUser::without_cookie(), Err(AuthError::NoSession));
    assert_eq!(CurrentUser::from_validated(Ok(None)), Err(AuthError::InvalidSession));
    let admin = CurrentUser::Admin(AdminId(1));
    assert_eq!(CurrentUser::from_validated(Ok(Some(admin))), Ok(admin));
    assert_eq!(CurrentUser::from_validated(Err(AuthError::Internal)), Err(AuthError::Internal));
    assert_eq!(CurrentUser::from_validated(Err(AuthError::NoSession)), Err(AuthError::NoSession));
}

#[test]
fn optional_user_allows_missing_sessions() {
    assert_eq!(MaybeCurrentUser::without_cookie(), Ok(MaybeCurrentUser(None)));
    assert_eq!(MaybeCurrentUser::from_validated(Ok(None)), Ok(MaybeCurrentUser(None)));
    assert_eq!(
        MaybeCurrentUser::from_validated(Err(AuthError::NoSession)),
        Ok(MaybeCurrentUser(None))
    );
    assert_eq!(
        MaybeCurrentUser::from_validated(Err(AuthError::InvalidSession)),
        Err(AuthError::InvalidSession)
    );
}

#[test]
fn login_page_redirects_admins_only() {
    assert_eq!(
        login_get(&MaybeCurrentUser(Some(CurrentUser::Admin(AdminId(1))))),
        LoginPage::RedirectHome
    );
    assert_eq!(login_get(&MaybeCurrentUser(Some(CurrentUser::Player(PlayerId(1))))), LoginPage::Form);
    assert_eq!(login_get(&MaybeCurrentUser(None)), LoginPage::Form);
}

#[test]
fn login_outcomes() {
    let mut rng = ChaCha12Rng::seed_from_u64(8);
    let phc = hash_admin_password(&mut rng, "pw").unwrap();
    let admin = Some(Admin::new("root".to_string(), phc, AdminId(9)));
    assert!(matches!(login_outcome(&admin, "pw"), Ok(AdminId(9))));
    assert!(matches!(
        login_outcome(&admin, "nope"),
        Err(AppError::AuthError(AuthError::BadCredentials))
    ));
    assert!(matches!(
        login_outcome(&None, "pw"),
        Err(AppError::AuthError(AuthError::BadCredentials))
    ));
    let broken = Some(Admin::new("root".to_string(), "garbage".to_string(), AdminId(9)));
    assert!(matches!(
        login_outcome(&broken, "pw"),
        Err(AppError::HashingError(Argon2Error::Hash(_)))
    ));
}

#[test]
fn dashboard_shows_the_user() {
    assert_eq!(DashboardTemplate::new("alice").user, "alice");
}
