use auth_core::flows::check_user_exists_response;
use auth_core::flows::fallback_response;
use auth_core::flows::login;
use auth_core::flows::login_validate;
use auth_core::flows::logout;
use auth_core::flows::reset_password_user;
use auth_core::flows::reset_password_validate;
use auth_core::flows::signup_insert_error;
use auth_core::flows::signup_prepare;
use auth_core::flows::signup_validate;
use auth_core::flows::verify_email_check_token;
use auth_core::flows::verify_email_check_user;
use auth_core::hash_pw;
use auth_core::issue_email_verification_token;
use auth_core::issue_password_reset_token;
use auth_core::verify_pw;
use auth_core::AuthError;
use auth_core::SessionStore;
use auth_core::TokenRecord;
use auth_core::User;

const NOW: i64 = 1_700_000_000_000;

fn some_user(password: &str) -> User {
    User {
        user_id: 11,
        user_name: "alice".to_string(),
        user_email: "a@b.com".to_string(),
        user_password_hash: hash_pw(password).unwrap(),
        user_created_at: NOW - 10_000,
        user_updated_at: NOW - 10_000,
        user_is_email_verified: false,
    }
}

#[test]
fn signup_issues_a_one_day_verification_window() {
    // the flow: validate, check uniqueness, hash, insert, issue the token
    let hash = signup_prepare("alice", "a@b.com", "Abcdef12", false).unwrap();
    assert_eq!(verify_pw("Abcdef12", &hash).unwrap(), true);
    let user_id: u128 = 11;
    let token = issue_email_verification_token(user_id, NOW);
    // the success payload carries verify_by = now + 24h
    assert_eq!(token.expires_at, NOW + 24 * 60 * 60 * 1_000);
}

#[test]
fn second_signup_with_same_email_is_rejected() {
    let r = signup_prepare("alice", "a@b.com", "Abcdef12", true);
    assert!(matches!(r, Err(AuthError::EmailMustBeUnique)));
}

#[test]
fn signup_rejects_malformed_fields_in_order() {
    assert!(matches!(
        signup_validate("", "a@b.com", "Abcdef12"),
        Err(AuthError::UsernameInvalid)
    ));
    assert!(matches!(
        signup_validate("alice", "a@b.com", "short"),
        Err(AuthError::PasswordInvalid)
    ));
    assert!(matches!(
        signup_validate("alice", "not-an-email", "Abcdef12"),
        Err(AuthError::EmailInvalid)
    ));
    // a bad username is reported even when everything else is bad too
    assert!(matches!(
        signup_validate("bad name!", "not-an-email", "short"),
        Err(AuthError::UsernameInvalid)
    ));
    assert!(signup_validate("alice", "a@b.com", "Abcdef12").is_ok());
}

#[test]
fn signup_insert_race_maps_to_unique_violation() {
    assert_eq!(signup_insert_error(true), AuthError::EmailMustBeUnique);
    assert_eq!(signup_insert_error(false), AuthError::DbInsertionError);
}

#[test]
fn login_sets_a_session_and_logout_removes_it() {
    let mut store = SessionStore::new();
    let user = some_user("Abcdef12");

    let (response, session_id) =
        login(&mut store, Some(&user), "a@b.com", "Abcdef12", None, NOW).unwrap();
    assert_eq!(response.message, "Login successful");
    assert_eq!(response.user_id, user.user_id);
    assert_eq!(store.session_count(), 1);

    // replay the cookie's session id to logout
    let out = logout(&mut store, Some(session_id));
    assert_eq!(out.message, "Logout successful");

    // the prune check shows the session gone
    let (pruned, remaining) = store.prune_expired(NOW);
    assert_eq!((pruned, remaining), (0, 0));
    assert_eq!(store.session_count(), 0);
}

#[test]
fn login_with_wrong_password_is_unauthorized() {
    let mut store = SessionStore::new();
    let user = some_user("Abcdef12");
    let r = login(&mut store, Some(&user), "a@b.com", "Abcdef13", None, NOW);
    assert!(matches!(r, Err(AuthError::WrongPassword)));
    assert_eq!(store.session_count(), 0);
}

#[test]
fn login_with_unknown_email_is_not_found() {
    let mut store = SessionStore::new();
    let r = login(&mut store, None, "a@b.com", "Abcdef12", None, NOW);
    assert!(matches!(r, Err(AuthError::UserNotFound)));
}

#[test]
fn login_validates_request_shape_first() {
    assert!(matches!(
        login_validate("not-an-email", "Abcdef12"),
        Err(AuthError::EmailInvalid)
    ));
    assert!(matches!(
        login_validate("a@b.com", "short"),
        Err(AuthError::PasswordInvalid)
    ));
    let mut store = SessionStore::new();
    let user = some_user("Abcdef12");
    let r = login(&mut store, Some(&user), "not-an-email", "Abcdef12", None, NOW);
    assert!(matches!(r, Err(AuthError::EmailInvalid)));
}

#[test]
fn relogin_replaces_the_old_session() {
    let mut store = SessionStore::new();
    let user = some_user("Abcdef12");
    let (_, first_sid) = login(&mut store, Some(&user), "a@b.com", "Abcdef12", None, NOW).unwrap();
    let (_, second_sid) =
        login(&mut store, Some(&user), "a@b.com", "Abcdef12", Some(first_sid), NOW).unwrap();
    assert_ne!(first_sid, second_sid);
    assert_eq!(store.session_count(), 1);
    assert!(store.remove(second_sid).is_ok());
}

#[test]
fn login_with_stale_cookie_is_blocked() {
    let mut store = SessionStore::new();
    let user = some_user("Abcdef12");
    let r = login(&mut store, Some(&user), "a@b.com", "Abcdef12", Some(99), NOW);
    assert!(matches!(r, Err(AuthError::CouldNotRemoveOldSession)));
    assert_eq!(store.session_count(), 0);
}

#[test]
fn logout_without_a_cookie_is_a_no_op() {
    let mut store = SessionStore::new();
    store.create(5, NOW, None).unwrap();
    let out = logout(&mut store, None);
    assert_eq!(out.message, "Logout successful");
    assert_eq!(store.session_count(), 1);
}

#[test]
fn logout_with_unknown_session_still_succeeds() {
    let mut store = SessionStore::new();
    let out = logout(&mut store, Some(123));
    assert_eq!(out.message, "Logout successful");
}

#[test]
fn verify_email_consumes_a_fresh_token() {
    let issued = issue_email_verification_token(11, NOW);
    let stored = TokenRecord {
        token_id: 501,
        user_id: issued.user_id,
        token_value: issued.token_value,
        created_at: issued.created_at,
        expires_at: issued.expires_at,
        used_at: None,
    };
    let later = NOW + 3_600_000;
    let token = verify_email_check_token(Some(&stored), later).unwrap();
    let action = verify_email_check_user(&token, false, later).unwrap();
    assert_eq!(action.user_id, 11);
    assert_eq!(action.token_id, 501);
    assert_eq!(action.verified_at, later);
}

#[test]
fn verify_email_with_expired_token_changes_nothing() {
    // a token whose expires_at is one minute in the past
    let stored = TokenRecord {
        token_id: 502,
        user_id: 11,
        token_value: 77,
        created_at: NOW - 86_400_000,
        expires_at: NOW - 60_000,
        used_at: None,
    };
    let user_is_email_verified = false;
    let r = verify_email_check_token(Some(&stored), NOW);
    assert!(matches!(r, Err(AuthError::TokenExpired)));
    // the flow stops before the user stage: the flag stays unchanged
    assert_eq!(user_is_email_verified, false);
}

#[test]
fn verify_email_with_unknown_token_is_invalid() {
    let r = verify_email_check_token(None, NOW);
    assert!(matches!(r, Err(AuthError::TokenInvalid)));
}

#[test]
fn verify_email_short_circuits_when_already_verified() {
    let stored = TokenRecord {
        token_id: 503,
        user_id: 11,
        token_value: 78,
        created_at: NOW - 1_000,
        expires_at: NOW + 1_000,
        used_at: None,
    };
    let token = verify_email_check_token(Some(&stored), NOW).unwrap();
    let r = verify_email_check_user(&token, true, NOW);
    assert!(matches!(r, Err(AuthError::AlreadyVerified)));
}

#[test]
fn reset_password_request_issues_a_thirty_minute_token() {
    reset_password_validate("a@b.com").unwrap();
    let user = some_user("Abcdef12");
    let user_id = reset_password_user(Some(&user)).unwrap();
    let token = issue_password_reset_token(user_id, NOW);
    assert_eq!(token.user_id, user.user_id);
    assert_eq!(token.expires_at, NOW + 30 * 60 * 1_000);
}

#[test]
fn reset_password_request_rejects_bad_email_and_unknown_user() {
    assert!(matches!(
        reset_password_validate("nope"),
        Err(AuthError::EmailInvalid)
    ));
    assert!(matches!(
        reset_password_user(None),
        Err(AuthError::UserNotFound)
    ));
}

#[test]
fn check_user_exists_passes_the_lookup_through() {
    assert_eq!(check_user_exists_response("a@b.com", true).unwrap(), true);
    assert_eq!(check_user_exists_response("a@b.com", false).unwrap(), false);
    assert!(matches!(
        check_user_exists_response("nope", true),
        Err(AuthError::EmailInvalid)
    ));
}

#[test]
fn new_user_carries_its_fields() {
    let hash = hash_pw("Abcdef12").unwrap();
    let new_user = auth_core::NewUser::new("alice", "a@b.com", &hash);
    assert_eq!(new_user.user_name(), "alice");
    assert_eq!(new_user.user_email(), "a@b.com");
    assert_eq!(new_user.user_password_hash(), hash);
}

#[test]
fn fallback_names_probes() {
    assert_eq!(fallback_response().message, "Invalid path! Probes, go away.");
}

#[test]
fn error_kinds_carry_stable_codes_and_statuses() {
    assert_eq!(AuthError::PoolError.error_code(), 0);
    assert_eq!(AuthError::EmailInvalid.error_code(), 2);
    assert_eq!(AuthError::EmailMustBeUnique.error_code(), 6);
    assert_eq!(AuthError::TokenExpired.error_code(), 9);
    assert_eq!(AuthError::CouldNotRemoveOldSession.error_code(), 18);

    assert_eq!(AuthError::UserNotFound.http_status(), 404);
    assert_eq!(AuthError::WrongPassword.http_status(), 401);
    assert_eq!(AuthError::EmailInvalid.http_status(), 400);
    assert_eq!(AuthError::DbQueryError.http_status(), 500);

    assert_eq!(AuthError::WrongPassword.message(), "Incorrect password!");
    assert_eq!(
        AuthError::EmailMustBeUnique.message(),
        "Email address already exists!"
    );
}
