use rand_chacha::rand_core::SeedableRng;
use rand_chacha::ChaCha12Rng;
use trivia::random_str::{generate_legible_string, JoinCode, CHARSET};

#[test]
fn random_str_test_profane_join_code() {
    let code = JoinCode::from_string("shit");
    assert!(matches!(code, None))
}

#[test]
fn from_string_keeps_clean_text() {
    let code = JoinCode::from_string("hello").expect("clean code");
    assert_eq!(code.to_string(), "hello");
    assert!(code == JoinCode::from_string("hello").unwrap());
    assert!(code != JoinCode::from_string("world").unwrap());
}

#[test]
fn legible_strings_avoid_ambiguous_characters() {
    let mut rng = ChaCha12Rng::seed_from_u64(1);
    let s = generate_legible_string(&mut rng, 200);
    assert_eq!(s.chars().count(), 200);
    assert!(s.chars().all(|c| CHARSET.contains(&c)));
    assert!(!s.contains('O') && !s.contains('0') && !s.contains('l'));
    assert!(!s.contains('I') && !s.contains('1'));
}

#[test]
fn legible_string_of_length_zero_is_empty() {
    let mut rng = ChaCha12Rng::seed_from_u64(1);
    assert_eq!(generate_legible_string(&mut rng, 0), "");
}

#[test]
fn charset_has_fifty_seven_characters() {
    assert_eq!(CHARSET.len(), 57);
}

#[test]
fn try_from_rng_gives_legible_codes_of_the_length() {
    let mut rng = ChaCha12Rng::seed_from_u64(3);
    let mut found = 0;
    for _ in 0..20 {
        if let Some(code) = JoinCode::try_from_rng(&mut rng, 6) {
            let s = code.to_string();
            assert_eq!(s.chars().count(), 6);
            assert!(s.chars().all(|c| CHARSET.contains(&c)));
            found += 1;
        }
    }
    assert!(found > 0);
}
