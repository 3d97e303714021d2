use auth_service::domain::email::Email;
use auth_service::utils::auth::{
    claims_from_parts, generate_auth_token, generate_auth_token_at, token_expiry, validate_token,
    GenerateTokenError,
};
use chrono::Utc;

const SECRET: &str = "test-secret";

#[test]
fn test_generate_auth_token() {
    let email = Email::parse("test@example.com").unwrap();
    let result = generate_auth_token(&email, SECRET).unwrap();
    assert_eq!(result.split('.').count(), 3);
}

#[test]
fn test_validate_token_with_valid_token() {
    let email = Email::parse("test@example.com").unwrap();
    let token = generate_auth_token(&email, SECRET).unwrap();
    let result = validate_token(&token, SECRET).unwrap();
    assert_eq!(result.sub, "test@example.com");

    let exp = Utc::now()
        .checked_add_signed(chrono::Duration::try_minutes(9).expect("valid duration"))
        .expect("valid timestamp")
        .timestamp();

    assert!(result.exp > exp as usize);
}

#[test]
fn test_validate_token_with_invalid_token() {
    let token = "invalid_token".to_owned();
    let result = validate_token(&token, SECRET);
    assert!(result.is_err());
}

#[test]
fn validated_claims_are_the_issued_ones() {
    let email = Email::parse("test@example.com").unwrap();
    let now = Utc::now().timestamp();
    let token = generate_auth_token_at(&email, SECRET, now).unwrap();
    let claims = validate_token(&token, SECRET).unwrap();
    assert_eq!(claims.sub, "test@example.com");
    assert_eq!(claims.exp as i64, now + 600);
}

#[test]
fn token_signed_with_another_secret_is_rejected() {
    let email = Email::parse("test@example.com").unwrap();
    let token = generate_auth_token(&email, SECRET).unwrap();
    assert!(validate_token(&token, "another-secret").is_err());
}

#[test]
fn expired_token_is_rejected() {
    let email = Email::parse("test@example.com").unwrap();
    let an_hour_ago = Utc::now().timestamp() - 3600;
    let token = generate_auth_token_at(&email, SECRET, an_hour_ago).unwrap();
    assert!(validate_token(&token, SECRET).is_err());
}

#[test]
fn same_inputs_give_the_same_token() {
    let email = Email::parse("test@example.com").unwrap();
    let a = generate_auth_token_at(&email, SECRET, 1_700_000_000).unwrap();
    let b = generate_auth_token_at(&email, SECRET, 1_700_000_000).unwrap();
    let c = generate_auth_token_at(&email, SECRET, 1_700_000_001).unwrap();
    assert_eq!(a, b);
    assert_ne!(a, c);
}

#[test]
fn expiry_is_ten_minutes_later() {
    assert_eq!(token_expiry(0), Some(600));
    assert_eq!(token_expiry(1_700_000_000), Some(1_700_000_600));
    assert_eq!(token_expiry(-600), Some(0));
    assert_eq!(token_expiry(-601), None);
    assert_eq!(token_expiry(i64::MAX), None);
    let email = Email::parse("test@example.com").unwrap();
    assert!(matches!(
        generate_auth_token_at(&email, SECRET, -1000),
        Err(GenerateTokenError::UnexpectedError(_))
    ));
}

#[test]
fn claims_need_both_parts() {
    let c = claims_from_parts(Some("a@b.com".to_owned()), Some(42)).unwrap();
    assert_eq!(c.sub, "a@b.com");
    assert_eq!(c.exp, 42);
    assert!(claims_from_parts(None, Some(42)).is_none());
    assert!(claims_from_parts(Some("a@b.com".to_owned()), None).is_none());
}
