use auth_core::validate_token;
use auth_core::AuthError;
use auth_core::TokenRecord;

fn token(created_at: i64, expires_at: i64, used_at: Option<i64>) -> TokenRecord {
    TokenRecord { token_id: 1, user_id: 2, token_value: 3, created_at, expires_at, used_at }
}

#[test]
fn fresh_token_validates() {
    let now: i64 = 1_700_000_000_000;
    let t = token(now - 1_000, now + 1_000, None);
    assert!(validate_token(&t, now).is_ok());
}

#[test]
fn expired_token_reports_expired() {
    let now: i64 = 1_700_000_000_000;
    let t = token(now - 10_000, now - 1, None);
    assert!(matches!(validate_token(&t, now), Err(AuthError::TokenExpired)));
}

#[test]
fn token_expiring_exactly_now_is_still_valid() {
    let now: i64 = 1_700_000_000_000;
    let t = token(now - 10_000, now, None);
    assert!(validate_token(&t, now).is_ok());
}

#[test]
fn future_created_token_reports_fabricated() {
    let now: i64 = 1_700_000_000_000;
    let t = token(now + 5_000, now + 100_000, None);
    assert!(matches!(validate_token(&t, now), Err(AuthError::TokenFabricated)));
}

#[test]
fn used_token_reports_already_used() {
    let now: i64 = 1_700_000_000_000;
    let t = token(now - 10_000, now + 10_000, Some(now - 5_000));
    assert!(matches!(validate_token(&t, now), Err(AuthError::TokenAlreadyUsed)));
}

#[test]
fn expired_and_used_token_reports_expired_first() {
    let now: i64 = 1_700_000_000_000;
    let t = token(now - 10_000, now - 1, Some(now - 5_000));
    assert!(matches!(validate_token(&t, now), Err(AuthError::TokenExpired)));
}

#[test]
fn expired_and_fabricated_token_reports_expired_first() {
    let now: i64 = 1_700_000_000_000;
    let t = token(now + 10_000, now - 1, None);
    assert!(matches!(validate_token(&t, now), Err(AuthError::TokenExpired)));
}

#[test]
fn fabricated_and_used_token_reports_fabricated_first() {
    let now: i64 = 1_700_000_000_000;
    let t = token(now + 10_000, now + 20_000, Some(now));
    assert!(matches!(validate_token(&t, now), Err(AuthError::TokenFabricated)));
}

#[test]
fn email_verification_token_lasts_one_day() {
    let now: i64 = 1_700_000_000_000;
    let t = auth_core::issue_email_verification_token(77, now);
    assert_eq!(t.user_id, 77);
    assert_eq!(t.created_at, now);
    assert_eq!(t.expires_at, now + 86_400_000);
}

#[test]
fn password_reset_token_lasts_thirty_minutes() {
    let now: i64 = 1_700_000_000_000;
    let t = auth_core::issue_password_reset_token(78, now);
    assert_eq!(t.user_id, 78);
    assert_eq!(t.created_at, now);
    assert_eq!(t.expires_at, now + 1_800_000);
}

#[test]
fn issued_token_values_are_fresh() {
    let now: i64 = 1_700_000_000_000;
    let a = auth_core::issue_email_verification_token(1, now);
    let b = auth_core::issue_email_verification_token(1, now);
    assert_ne!(a.token_value, b.token_value);
}
