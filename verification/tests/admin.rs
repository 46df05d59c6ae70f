use rand_chacha::rand_core::SeedableRng;
use rand_chacha::ChaCha12Rng;
use trivia::admin::{admin_credentials, prepare_admin_account, RANDOM_ADMIN_PW_LENGTH};
use trivia::auth::Admin;
use trivia::config::BackendConfig;
use trivia::random_str::CHARSET;

#[test]
fn default_credentials_are_admin_and_a_random_password() {
    let config = BackendConfig::from_vars(None, None, None, None);
    let mut rng = ChaCha12Rng::seed_from_u64(11);
    let (user, pw) = admin_credentials(&config, &mut rng);
    assert_eq!(user, "admin");
    assert_eq!(pw.chars().count(), RANDOM_ADMIN_PW_LENGTH);
    assert_eq!(RANDOM_ADMIN_PW_LENGTH, 12);
    assert!(pw.chars().all(|c| CHARSET.contains(&c)));
}

#[test]
fn configured_credentials_are_used_as_given() {
    let config =
        BackendConfig::from_vars(Some("root".to_string()), Some("s3cret".to_string()), None, None);
    let mut rng = ChaCha12Rng::seed_from_u64(11);
    assert_eq!(
        admin_credentials(&config, &mut rng),
        ("root".to_string(), "s3cret".to_string())
    );
}

#[test]
fn prepared_admin_logs_in_with_its_password() {
    let config =
        BackendConfig::from_vars(Some("root".to_string()), Some("s3cret".to_string()), None, None);
    let mut rng = ChaCha12Rng::seed_from_u64(12);
    let acct = prepare_admin_account(&config, &mut rng).expect("hash");
    assert_eq!(acct.username, "root");
    assert_eq!(acct.password, "s3cret");
    assert!(acct.phc.starts_with("$argon2id$"));
    let admin = Admin::new(acct.username.clone(), acct.phc.clone(), ());
    assert_eq!(admin.check_password("s3cret"), Ok(true));
}

#[test]
fn default_admin_account_is_always_prepared() {
    let config = BackendConfig::from_vars(None, None, None, None);
    let mut rng = ChaCha12Rng::seed_from_u64(14);
    let acct = prepare_admin_account(&config, &mut rng).expect("hash");
    assert_eq!(acct.username, "admin");
    let admin = Admin::new(acct.username.clone(), acct.phc.clone(), ());
    assert_eq!(admin.check_password(&acct.password), Ok(true));
}
