//! The auth flows: signup, login, logout, verify-email, reset-password
//! request, and the user-existence check.
//!
//! Each flow validates request shape first, then decides from the values
//! the external store handed back, mutating only the session store. The
//! database round-trips themselves happen at the caller's edge: the flow
//! functions take the query results as plain values, so every decision
//! and every error in the closed taxonomy is pinned down here.

use vstd::prelude::*;

use crate::domain::User;
use crate::errors::AuthError;
use crate::passwords::hash_pw;
use crate::passwords::pw_matches;
use crate::passwords::verify_pw;
use crate::session::DEFAULT_SESSION_DURATION_MS;
use crate::session::SessionError;
use crate::session::SessionRecord;
use crate::session::SessionStore;
use crate::tokens::spec_validate_token;
use crate::tokens::validate_token;
use crate::tokens::TokenRecord;
use crate::validate::email_is_valid;
use crate::validate::is_valid_email;
use crate::validate::valid_password_form;
use crate::validate::valid_username;
use crate::validate::validate_password_form;
use crate::validate::validate_username;

verus! {

/// The success payload of signup: who signed up and by when the email
/// must be verified.
pub struct SignupResponse {
    pub user_name: String,
    pub user_email: String,
    pub verify_by: i64,
}

/// The success payload of login.
pub struct LoginResponse {
    pub message: String,
    pub user_id: u128,
}

/// The success payload of logout.
pub struct LogoutResponse {
    pub message: String,
}

/// The success payload of email verification.
pub struct EmailValidateResponse {
    pub user_email: String,
    pub verified_at: i64,
}

/// The success payload of a password-reset request.
pub struct ResetPasswordRequestResponse {
    pub user_email: String,
    pub verify_by: i64,
}

/// The payload served for any unknown path.
pub struct FallbackHandlerResponse<'a> {
    pub message: &'a str,
}

/// Whether a signup request is well-shaped: username charset, password
/// complexity, email syntax.
pub open spec fn spec_signup_valid(user_name: &str, user_email: &str, user_password: &str) -> bool {
    &&& valid_username(user_name)
    &&& valid_password_form(user_password)
    &&& is_valid_email(user_email@)
}

/// The request-shape stage of signup, run before any collaborator call:
/// username charset, then password complexity, then email syntax, in that
/// order.
pub fn signup_validate(user_name: &str, user_email: &str, user_password: &str) -> (r: Result<
    (),
    AuthError,
>)
    ensures
        match r {
            Ok(_) => spec_signup_valid(user_name, user_email, user_password),
            Err(e) => match e {
                AuthError::UsernameInvalid => !valid_username(user_name),
                AuthError::PasswordInvalid => valid_username(user_name) && !valid_password_form(
                    user_password,
                ),
                AuthError::EmailInvalid => valid_username(user_name) && valid_password_form(
                    user_password,
                ) && !is_valid_email(user_email@),
                _ => false,
            },
        },
{
    if !validate_username(user_name) {
        return Err(AuthError::UsernameInvalid);
    }
    if !validate_password_form(user_password) {
        return Err(AuthError::PasswordInvalid);
    }
    if !email_is_valid(user_email) {
        return Err(AuthError::EmailInvalid);
    }
    Ok(())
}

/// The decision-and-hashing stage of signup, given whether the email is
/// already taken: re-checks the request shape, rejects a taken email, and
/// derives the password hash to insert. Succeeds exactly when the request
/// is well-shaped, the email is free, and the key-derivation call went
/// through; the hash it returns verifies against the password.
pub fn signup_prepare(
    user_name: &str,
    user_email: &str,
    user_password: &str,
    email_exists: bool,
) -> (r: Result<String, AuthError>)
    ensures
        match r {
            Ok(hash) => spec_signup_valid(user_name, user_email, user_password) && !email_exists
                && pw_matches(user_password@, hash@),
            Err(e) => match e {
                AuthError::UsernameInvalid => !valid_username(user_name),
                AuthError::PasswordInvalid => valid_username(user_name) && !valid_password_form(
                    user_password,
                ),
                AuthError::EmailInvalid => valid_username(user_name) && valid_password_form(
                    user_password,
                ) && !is_valid_email(user_email@),
                AuthError::EmailMustBeUnique => spec_signup_valid(
                    user_name,
                    user_email,
                    user_password,
                ) && email_exists,
                AuthError::HashingFailure => spec_signup_valid(user_name, user_email, user_password)
                    && !email_exists,
                _ => false,
            },
        },
{
    signup_validate(user_name, user_email, user_password)?;
    if email_exists {
        return Err(AuthError::EmailMustBeUnique);
    }
    let hash = hash_pw(user_password)?;
    Ok(hash)
}

/// Classifies a failed user insert: a unique-constraint violation lost
/// the race on the email, anything else is a database insertion failure.
pub fn signup_insert_error(unique_violation: bool) -> (r: AuthError)
    ensures
        r == if unique_violation {
            AuthError::EmailMustBeUnique
        } else {
            AuthError::DbInsertionError
        },
{
    if unique_violation {
        AuthError::EmailMustBeUnique
    } else {
        AuthError::DbInsertionError
    }
}

/// The request-shape stage of login, run before any collaborator call:
/// email syntax, then password complexity.
pub fn login_validate(user_email: &str, user_password: &str) -> (r: Result<(), AuthError>)
    ensures
        match r {
            Ok(_) => is_valid_email(user_email@) && valid_password_form(user_password),
            Err(e) => match e {
                AuthError::EmailInvalid => !is_valid_email(user_email@),
                AuthError::PasswordInvalid => is_valid_email(user_email@)
                    && !valid_password_form(user_password),
                _ => false,
            },
        },
{
    if !email_is_valid(user_email) {
        return Err(AuthError::EmailInvalid);
    }
    if !validate_password_form(user_password) {
        return Err(AuthError::PasswordInvalid);
    }
    Ok(())
}

/// Whether a login request is well-shaped: email syntax and password
/// complexity.
pub open spec fn spec_login_valid(user_email: &str, user_password: &str) -> bool {
    &&& is_valid_email(user_email@)
    &&& valid_password_form(user_password)
}

/// What the session store held when login returned, as a function of what
/// it held before: the old session, if one was named, is gone.
pub open spec fn spec_after_old_session_removed(
    before: Map<u128, SessionRecord>,
    old_session_id: Option<u128>,
) -> Map<u128, SessionRecord> {
    match old_session_id {
        Some(old_sid) => before.remove(old_sid),
        None => before,
    }
}

/// The login flow past the user-store lookup: verifies the password,
/// removes the old session named by the request's cookie (failure to do
/// so blocks the login, so no session is orphaned), creates a fresh
/// session valid for one hour, and answers with the user id and the new
/// session id to set as the cookie.
pub fn login(
    store: &mut SessionStore,
    user_lookup: Option<&User>,
    user_email: &str,
    user_password: &str,
    old_session_id: Option<u128>,
    now: i64,
) -> (r: Result<(LoginResponse, u128), AuthError>)
    requires
        old(store).wf(),
        now + DEFAULT_SESSION_DURATION_MS <= i64::MAX,
    ensures
        final(store).wf(),
        match r {
            Ok((response, session_id)) => {
                &&& spec_login_valid(user_email, user_password)
                &&& user_lookup matches Some(user) && pw_matches(
                    user_password@,
                    user.user_password_hash@,
                ) && response.user_id == user.user_id && final(store).sessions()
                    == spec_after_old_session_removed(
                    old(store).sessions(),
                    old_session_id,
                ).insert(
                    session_id,
                    (SessionRecord {
                        session_id,
                        user_id: user.user_id,
                        created_at: now,
                        expires_at: (now + DEFAULT_SESSION_DURATION_MS) as i64,
                    }),
                )
                &&& (old_session_id matches Some(old_sid) ==> old(store).sessions().contains_key(
                    old_sid,
                ))
                &&& response.message@ == "Login successful"@
            },
            Err(e) => match e {
                AuthError::EmailInvalid => !is_valid_email(user_email@) && final(store).sessions()
                    == old(store).sessions(),
                AuthError::PasswordInvalid => is_valid_email(user_email@) && !valid_password_form(
                    user_password,
                ) && final(store).sessions() == old(store).sessions(),
                AuthError::UserNotFound => spec_login_valid(user_email, user_password)
                    && user_lookup is None && final(store).sessions() == old(store).sessions(),
                AuthError::VerificationFailure => spec_login_valid(user_email, user_password)
                    && user_lookup is Some && final(store).sessions() == old(store).sessions(),
                AuthError::WrongPassword => spec_login_valid(user_email, user_password)
                    && (user_lookup matches Some(user) && !pw_matches(
                    user_password@,
                    user.user_password_hash@,
                )) && final(store).sessions() == old(store).sessions(),
                AuthError::CouldNotRemoveOldSession => spec_login_valid(user_email, user_password)
                    && (user_lookup matches Some(user) && pw_matches(
                    user_password@,
                    user.user_password_hash@,
                )) && (old_session_id matches Some(old_sid) && !old(
                    store,
                ).sessions().contains_key(old_sid)) && final(store).sessions() == old(
                    store,
                ).sessions(),
                AuthError::DuplicateSessionId => spec_login_valid(user_email, user_password) && (
                user_lookup matches Some(user) && pw_matches(
                    user_password@,
                    user.user_password_hash@,
                )) && (old_session_id matches Some(old_sid) ==> old(
                    store,
                ).sessions().contains_key(old_sid)) && final(store).sessions()
                    == spec_after_old_session_removed(old(store).sessions(), old_session_id),
                _ => false,
            },
        },
{
    login_validate(user_email, user_password)?;

    let user = match user_lookup {
        Some(user) => user,
        None => {
            return Err(AuthError::UserNotFound);
        },
    };

    match verify_pw(user_password, user.user_password_hash.as_str()) {
        Ok(true) => (),
        Ok(false) => {
            return Err(AuthError::WrongPassword);
        },
        Err(e) => {
            return Err(e);
        },
    }

    if let Some(old_sid) = old_session_id {
        match store.remove(old_sid) {
            Ok(_) => (),
            Err(_) => {
                return Err(AuthError::CouldNotRemoveOldSession);
            },
        }
    }

    let session_id = match store.create(user.user_id, now, None) {
        Ok(sid) => sid,
        Err(_) => {
            return Err(AuthError::DuplicateSessionId);
        },
    };

    Ok((
        LoginResponse { message: "Login successful".to_owned(), user_id: user.user_id },
        session_id,
    ))
}

/// The logout flow: removal of the session named by the cookie is
/// best-effort, an absent or unknown id is tolerated, and the flow always
/// succeeds so the client's cookie is always cleared.
pub fn logout(store: &mut SessionStore, session_id: Option<u128>) -> (r: LogoutResponse)
    requires
        old(store).wf(),
    ensures
        final(store).wf(),
        final(store).sessions() == spec_after_old_session_removed(old(store).sessions(), session_id),
        r.message@ == "Logout successful"@,
{
    if let Some(sid) = session_id {
        let removed = store.remove(sid);
        proof {
            if removed is Err {
                assert(old(store).sessions().remove(sid) =~= old(store).sessions());
            }
        }
    }
    LogoutResponse { message: "Logout successful".to_owned() }
}

/// The atomic update email verification must apply in one transaction:
/// set the user's verified flag and updated-at, and mark the token used,
/// all at `verified_at`. Partial application must never be observable.
pub struct VerifyEmailAction {
    pub user_id: u128,
    pub token_id: u128,
    pub verified_at: i64,
}

/// The token stage of email verification: an absent token is invalid, a
/// found one is validated in the fixed order expired, fabricated,
/// already-used.
pub fn verify_email_check_token(found: Option<&TokenRecord>, now: i64) -> (r: Result<
    TokenRecord,
    AuthError,
>)
    ensures
        match r {
            Ok(token) => found matches Some(f) && token == *f && spec_validate_token(token, now)
                is Ok,
            Err(e) => match e {
                AuthError::TokenInvalid => found is None,
                _ => found matches Some(f) && spec_validate_token(*f, now) == Err::<
                    (),
                    AuthError,
                >(e),
            },
        },
{
    let token = match found {
        Some(token) => *token,
        None => {
            return Err(AuthError::TokenInvalid);
        },
    };
    validate_token(&token, now)?;
    Ok(token)
}

/// The user stage of email verification, after the token passed: an
/// already-verified user short-circuits; otherwise the atomic update to
/// apply comes back.
pub fn verify_email_check_user(token: &TokenRecord, user_is_email_verified: bool, now: i64) -> (r:
    Result<VerifyEmailAction, AuthError>)
    ensures
        match r {
            Ok(action) => !user_is_email_verified && action == (VerifyEmailAction {
                user_id: token.user_id,
                token_id: token.token_id,
                verified_at: now,
            }),
            Err(e) => e == AuthError::AlreadyVerified && user_is_email_verified,
        },
{
    if user_is_email_verified {
        return Err(AuthError::AlreadyVerified);
    }
    Ok(VerifyEmailAction { user_id: token.user_id, token_id: token.token_id, verified_at: now })
}

/// The request-shape stage of a password-reset request: the email must
/// parse.
pub fn reset_password_validate(user_email: &str) -> (r: Result<(), AuthError>)
    ensures
        match r {
            Ok(_) => is_valid_email(user_email@),
            Err(e) => e == AuthError::EmailInvalid && !is_valid_email(user_email@),
        },
{
    if !email_is_valid(user_email) {
        return Err(AuthError::EmailInvalid);
    }
    Ok(())
}

/// The decision stage of a password-reset request, given the user-store
/// lookup: an unknown email is reported; a known one gets the user id to
/// issue the thirty-minute reset token for.
pub fn reset_password_user(user_lookup: Option<&User>) -> (r: Result<u128, AuthError>)
    ensures
        match r {
            Ok(user_id) => user_lookup matches Some(user) && user_id == user.user_id,
            Err(e) => e == AuthError::UserNotFound && user_lookup is None,
        },
{
    match user_lookup {
        Some(user) => Ok(user.user_id),
        None => Err(AuthError::UserNotFound),
    }
}

/// The user-existence check: a malformed email is rejected before any
/// lookup; otherwise the lookup's answer is passed through.
pub fn check_user_exists_response(user_email: &str, email_exists: bool) -> (r: Result<
    bool,
    AuthError,
>)
    ensures
        match r {
            Ok(exists) => is_valid_email(user_email@) && exists == email_exists,
            Err(e) => e == AuthError::EmailInvalid && !is_valid_email(user_email@),
        },
{
    if !email_is_valid(user_email) {
        return Err(AuthError::EmailInvalid);
    }
    Ok(email_exists)
}

/// The payload served for any unknown path.
pub fn fallback_response() -> (r: FallbackHandlerResponse<'static>)
    ensures
        r.message@ == "Invalid path! Probes, go away."@,
{
    FallbackHandlerResponse { message: "Invalid path! Probes, go away." }
}

} // verus!
