use rand_chacha::rand_core::SeedableRng;
use rand_chacha::ChaCha12Rng;
use trivia::joincode::JoinCode;

#[test]
fn joincode_test_profane_join_code() {
    let code = JoinCode::<4>::from_buf("shit".as_bytes());
    assert!(matches!(code, None))
}

#[test]
fn from_buf_accepts_clean_text_of_the_right_length() {
    let code = JoinCode::<4>::from_buf(b"abcd").expect("clean code");
    assert_eq!(code.bytes(), *b"abcd");
    assert_eq!(code.to_string(), "abcd");
}

#[test]
fn from_buf_rejects_wrong_length() {
    assert!(JoinCode::<4>::from_buf(b"abc").is_none());
    assert!(JoinCode::<4>::from_buf(b"abcde").is_none());
}

#[test]
fn from_buf_rejects_invalid_utf8() {
    assert!(JoinCode::<4>::from_buf(&[0xff, 0xfe, b'a', b'b']).is_none());
}

#[test]
fn try_from_rng_draws_alphanumeric_codes() {
    let mut rng = ChaCha12Rng::seed_from_u64(7);
    let mut found = 0;
    for _ in 0..20 {
        if let Some(code) = JoinCode::<4>::try_from_rng(&mut rng) {
            assert!(code.bytes().iter().all(|b| b.is_ascii_alphanumeric()));
            found += 1;
        }
    }
    assert!(found > 0);
}
