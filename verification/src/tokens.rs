//! Single-use, time-bound verification tokens: issuance and validation.
//!
//! Two token purposes exist, with distinct validity windows: email
//! verification (one day) and password reset (thirty minutes). A token is
//! valid only while `now` lies inside its window, only if it was not
//! fabricated into the future, and only until it is consumed; once
//! consumed it is permanently invalid.

use vstd::prelude::*;

use crate::errors::AuthError;
use crate::ids::fresh_id;

verus! {

/// How long a fresh email-verification token stays valid: one day, in
/// milliseconds.
pub const EMAIL_VERIFICATION_TOKEN_VALID_MS: i64 = 86_400_000;

/// How long a fresh password-reset token stays valid: thirty minutes, in
/// milliseconds.
pub const PASSWORD_RESET_TOKEN_VALID_MS: i64 = 1_800_000;

/// A stored token as read back from the durable store.
#[derive(Clone, Copy, Debug)]
pub struct TokenRecord {
    pub token_id: u128,
    pub user_id: u128,
    pub token_value: u128,
    pub created_at: i64,
    pub expires_at: i64,
    pub used_at: Option<i64>,
}

/// A freshly issued token, ready to be persisted by the caller.
#[derive(Clone, Copy, Debug)]
pub struct NewTokenRecord {
    pub user_id: u128,
    pub token_value: u128,
    pub created_at: i64,
    pub expires_at: i64,
}

impl NewTokenRecord {
    /// The deterministic core of issuance: a token under a caller-chosen
    /// value, created now and expiring after `valid_for` milliseconds.
    pub fn with_value(user_id: u128, token_value: u128, now: i64, valid_for: i64) -> (r:
        NewTokenRecord)
        requires
            0 <= valid_for,
            now + valid_for <= i64::MAX,
        ensures
            r == (NewTokenRecord {
                user_id,
                token_value,
                created_at: now,
                expires_at: (now + valid_for) as i64,
            }),
    {
        NewTokenRecord { user_id, token_value, created_at: now, expires_at: now + valid_for }
    }
}

/// Issues an email-verification token under a freshly generated random
/// value, valid for one day from `now`.
pub fn issue_email_verification_token(user_id: u128, now: i64) -> (r: NewTokenRecord)
    requires
        now + EMAIL_VERIFICATION_TOKEN_VALID_MS <= i64::MAX,
    ensures
        r.user_id == user_id,
        r.created_at == now,
        r.expires_at == now + EMAIL_VERIFICATION_TOKEN_VALID_MS,
{
    NewTokenRecord::with_value(user_id, fresh_id(), now, EMAIL_VERIFICATION_TOKEN_VALID_MS)
}

/// Issues a password-reset token under a freshly generated random value,
/// valid for thirty minutes from `now`.
pub fn issue_password_reset_token(user_id: u128, now: i64) -> (r: NewTokenRecord)
    requires
        now + PASSWORD_RESET_TOKEN_VALID_MS <= i64::MAX,
    ensures
        r.user_id == user_id,
        r.created_at == now,
        r.expires_at == now + PASSWORD_RESET_TOKEN_VALID_MS,
{
    NewTokenRecord::with_value(user_id, fresh_id(), now, PASSWORD_RESET_TOKEN_VALID_MS)
}

/// The outcome of validating a stored token at time `now`. The checks
/// apply in a fixed order: expired, then fabricated, then already used.
pub open spec fn spec_validate_token(t: TokenRecord, now: i64) -> Result<(), AuthError> {
    if t.expires_at < now {
        Err(AuthError::TokenExpired)
    } else if t.created_at > now {
        Err(AuthError::TokenFabricated)
    } else if t.used_at is Some {
        Err(AuthError::TokenAlreadyUsed)
    } else {
        Ok(())
    }
}

/// Validates a stored token at time `now`, applying the checks in the
/// fixed order expired, fabricated, already-used. On success the caller
/// must mark the token used atomically with the side effect it guards.
pub fn validate_token(token: &TokenRecord, now: i64) -> (r: Result<(), AuthError>)
    ensures
        r == spec_validate_token(*token, now),
        r is Ok <==> (token.expires_at >= now && token.created_at <= now
            && token.used_at is None),
{
    if token.expires_at < now {
        Err(AuthError::TokenExpired)
    } else if token.created_at > now {
        Err(AuthError::TokenFabricated)
    } else if token.used_at.is_some() {
        Err(AuthError::TokenAlreadyUsed)
    } else {
        Ok(())
    }
}

/// Validation yields exactly one outcome, and the checks apply in the
/// fixed order expired, fabricated, already-used: in particular a token
/// that is both expired and already used reports the expiry.
pub proof fn lemma_validate_token_order(t: TokenRecord, now: i64)
    ensures
        t.expires_at < now ==> spec_validate_token(t, now) == Err::<(), AuthError>(
            AuthError::TokenExpired,
        ),
        t.expires_at >= now && t.created_at > now ==> spec_validate_token(t, now) == Err::<
            (),
            AuthError,
        >(AuthError::TokenFabricated),
        t.expires_at >= now && t.created_at <= now && t.used_at is Some ==> spec_validate_token(
            t,
            now,
        ) == Err::<(), AuthError>(AuthError::TokenAlreadyUsed),
        t.expires_at >= now && t.created_at <= now && t.used_at is None ==> spec_validate_token(
            t,
            now,
        ) == Ok::<(), AuthError>(()),
        spec_validate_token(t, now) matches Err(e) ==> (e == AuthError::TokenExpired || e
            == AuthError::TokenFabricated || e == AuthError::TokenAlreadyUsed),
{
}

/// A token freshly issued at `now` validates successfully at any instant
/// inside its window, provided it has not been consumed.
pub proof fn lemma_fresh_token_valid(t: TokenRecord, issued_at: i64, later: i64)
    requires
        t.created_at == issued_at,
        t.used_at is None,
        issued_at <= later <= t.expires_at,
    ensures
        spec_validate_token(t, later) == Ok::<(), AuthError>(()),
{
}

} // verus!
