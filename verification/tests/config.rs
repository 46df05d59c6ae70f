use trivia::config::{parse_u64_exec, strip_sqlite_scheme, BackendConfig};

#[test]
fn parse_accepts_plain_and_plus_signed_numbers() {
    assert_eq!(parse_u64_exec("42"), Some(42));
    assert_eq!(parse_u64_exec("+42"), Some(42));
    assert_eq!(parse_u64_exec("007"), Some(7));
    assert_eq!(parse_u64_exec("18446744073709551615"), Some(u64::MAX));
}

#[test]
fn parse_rejects_what_str_parse_rejects() {
    for s in ["", "+", "-1", "12a", " 1", "18446744073709551616", "99999999999999999999", "++1"] {
        assert_eq!(parse_u64_exec(s), None, "{s}");
        assert_eq!(parse_u64_exec(s), s.parse::<u64>().ok(), "{s}");
    }
}

#[test]
fn strip_scheme_removes_every_leading_repetition() {
    assert_eq!(strip_sqlite_scheme("sqlite://db.sqlite"), "db.sqlite");
    assert_eq!(strip_sqlite_scheme("sqlite://sqlite://x"), "x");
    assert_eq!(strip_sqlite_scheme("sqlite:/x"), "sqlite:/x");
    assert_eq!(strip_sqlite_scheme("/var/db.sqlite"), "/var/db.sqlite");
    assert_eq!(strip_sqlite_scheme("sqlite://"), "");
    assert_eq!(strip_sqlite_scheme("a/sqlite://"), "a/sqlite://");
}

#[test]
fn from_vars_pairs_credentials_only_when_both_are_set() {
    let c = BackendConfig::from_vars(Some("root".to_string()), None, None, None);
    assert!(c.admin_user_password.is_none());
    let c = BackendConfig::from_vars(None, Some("pw".to_string()), None, None);
    assert!(c.admin_user_password.is_none());
    let c = BackendConfig::from_vars(Some("root".to_string()), Some("pw".to_string()), None, None);
    assert_eq!(c.admin_user_password, Some(("root".to_string(), "pw".to_string())));
}

#[test]
fn from_vars_reads_path_and_seed() {
    let c = BackendConfig::from_vars(
        None,
        None,
        Some("sqlite://data/app.db".to_string()),
        Some("1234".to_string()),
    );
    assert_eq!(c.db_path.as_deref(), Some("data/app.db"));
    assert_eq!(c.rng_seed, Some(1234));
    let c = BackendConfig::from_vars(None, None, None, Some("seed".to_string()));
    assert_eq!(c.db_path, None);
    assert_eq!(c.rng_seed, None);
}
