use rand_chacha::rand_core::SeedableRng;
use rand_chacha::ChaCha12Rng;
use trivia::admin::hash_admin_password;
use trivia::auth::{Admin, Argon2Error, SessionToken};

#[test]
fn from_bytes_takes_exactly_sixteen_bytes() {
    let bytes: Vec<u8> = (0..16).collect();
    let tok = SessionToken::from_bytes(&bytes).expect("token");
    assert_eq!(tok.bytes().to_vec(), bytes);
    assert!(SessionToken::from_bytes(&bytes[..15]).is_none());
    assert!(SessionToken::from_bytes(&[0u8; 17]).is_none());
    assert!(SessionToken::from_bytes(&[]).is_none());
}

#[test]
fn base64_encoding_is_url_safe_without_padding() {
    let bytes: Vec<u8> = (0..16).collect();
    let tok = SessionToken::from_bytes(&bytes).unwrap();
    assert_eq!(tok.base64_encode(), "AAECAwQFBgcICQoLDA0ODw");
}

#[test]
fn base64_round_trip_gives_the_same_token() {
    let mut rng = ChaCha12Rng::seed_from_u64(9);
    let tok = SessionToken::generate(&mut rng);
    let back = SessionToken::from_base64(&tok.base64_encode()).expect("decodes");
    assert_eq!(back.bytes(), tok.bytes());
}

#[test]
fn from_base64_rejects_bad_text_and_wrong_lengths() {
    assert!(SessionToken::from_base64("not base64!").is_none());
    assert!(SessionToken::from_base64("AAECAwQFBgcICQoLDA0ODw==").is_none());
    assert!(SessionToken::from_base64("AAECAwQFBgcICQoLDA0O").is_none());
    assert!(SessionToken::from_base64("").is_none());
}

#[test]
fn sha256_of_known_token() {
    let tok = SessionToken::from_bytes(&[0u8; 16]).unwrap();
    let hex: String = tok.sha256().iter().map(|b| format!("{b:02x}")).collect();
    assert_eq!(hex, "374708fff7719dd5979ec875d56cd2286f6d3cf7ec317a3b25632aab28ec37bb");
}

#[test]
fn generated_tokens_differ() {
    let mut rng = ChaCha12Rng::seed_from_u64(2);
    let a = SessionToken::generate(&mut rng);
    let b = SessionToken::generate(&mut rng);
    assert_ne!(a.bytes(), b.bytes());
}

#[test]
fn admin_keeps_its_fields() {
    let admin = Admin::new("alice".to_string(), "$argon2id$x".to_string(), 7u32);
    assert_eq!(admin.username(), "alice");
    assert_eq!(*admin.tag(), 7);
}

#[test]
fn check_password_accepts_the_hashed_password_only() {
    let mut rng = ChaCha12Rng::seed_from_u64(5);
    let phc = hash_admin_password(&mut rng, "correct horse").expect("hash");
    let admin = Admin::new("alice".to_string(), phc, ());
    assert_eq!(admin.check_password("correct horse"), Ok(true));
    assert_eq!(admin.check_password("wrong"), Ok(false));
}

#[test]
fn check_password_reports_unreadable_hashes() {
    let admin = Admin::new("alice".to_string(), "not a phc string".to_string(), ());
    assert!(matches!(admin.check_password("x"), Err(Argon2Error::Hash(_))));
}

#[test]
fn argon2_errors_convert() {
    let e: Argon2Error = argon2::password_hash::Error::Password.into();
    assert_eq!(e, Argon2Error::Hash(argon2::password_hash::Error::Password));
    let e: Argon2Error = argon2::Error::PwdTooLong.into();
    assert_eq!(e, Argon2Error::Base(argon2::Error::PwdTooLong));
}

#[test]
fn encoded_tokens_are_short_url_safe_text() {
    let mut rng = ChaCha12Rng::seed_from_u64(13);
    for _ in 0..20 {
        let text = SessionToken::generate(&mut rng).base64_encode();
        assert_eq!(text.len(), 22);
        assert!(text.chars().all(|c| c.is_ascii_alphanumeric() || c == '-' || c == '_'));
    }
}
