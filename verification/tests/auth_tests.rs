use monitoreo::auth::{hash_password, verify_password, PasswordError, TokenError, TokenManager};

const KEY: &[u8; 32] = b"0123456789abcdef0123456789abcdef";
const OTHER: &[u8; 32] = b"fedcba9876543210fedcba9876543210";

#[test]
fn issued_token_reads_back_with_its_time() {
    let m = TokenManager::new(KEY);
    let t = m.generate("user-1").unwrap();
    assert!(t.starts_with("v4.local."));
    let data = m.verify(&t).unwrap();
    let (payload, secs) = data.rsplit_once(':').unwrap();
    assert_eq!(payload, "user-1");
    assert!(secs.parse::<u64>().unwrap() > 1_600_000_000);
}

#[test]
fn token_does_not_open_under_another_key() {
    let t = TokenManager::new(KEY).generate("user-2").unwrap();
    assert_eq!(TokenManager::new(OTHER).verify(&t), Err(TokenError::InvalidToken));
}

#[test]
fn key_must_be_32_bytes() {
    let m = TokenManager::new(b"short");
    assert_eq!(m.generate("x"), Err(TokenError::GenerationFailed));
    let t = TokenManager::new(KEY).generate("x").unwrap();
    assert_eq!(m.verify(&t), Err(TokenError::InvalidToken));
}

#[test]
fn malformed_tokens_are_refused() {
    let m = TokenManager::new(KEY);
    assert_eq!(m.verify("not a token"), Err(TokenError::InvalidToken));
    assert_eq!(m.verify("v4.local.AAAA"), Err(TokenError::InvalidToken));
}

#[test]
fn password_hash_checks_the_password() {
    let h = hash_password("correct-horse").unwrap();
    assert!(h.starts_with("$argon2id$v=19$m=19456,t=2,p=1$"));
    assert_eq!(verify_password("correct-horse", &h), Ok(true));
    assert_eq!(verify_password("wrong-horse", &h), Ok(false));
    assert_ne!(hash_password("correct-horse").unwrap(), h);
}

#[test]
fn unreadable_hash_is_refused() {
    assert_eq!(verify_password("x", "not a hash"), Err(PasswordError::VerificationFailed));
}
