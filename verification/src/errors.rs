//! The closed set of error kinds the auth core can report.
//!
//! Each kind carries a stable small integer code, an HTTP status, a log
//! severity, and a fixed client-facing message. Internal diagnostic text
//! from collaborators is kept out of this type: callers attach it out of
//! band so that it is never leaked verbatim to a client.

use vstd::prelude::*;

verus! {

/// Severity a failure is logged at; it never reaches the client.
#[derive(Clone, Copy, Debug, PartialEq, Eq, Structural)]
pub enum LogSeverity {
    Error,
    Warn,
    Info,
}

/// One error kind per failure the auth flows can report.
#[derive(Clone, Copy, Debug, PartialEq, Eq, Structural)]
pub enum AuthError {
    PoolError,
    DbQueryError,
    EmailInvalid,
    UsernameInvalid,
    HashingFailure,
    DbInsertionError,
    EmailMustBeUnique,
    DbUpdateError,
    TokenInvalid,
    TokenExpired,
    TokenFabricated,
    TokenAlreadyUsed,
    AlreadyVerified,
    PasswordInvalid,
    UserNotFound,
    WrongPassword,
    VerificationFailure,
    DuplicateSessionId,
    CouldNotRemoveOldSession,
}

impl AuthError {
    /// The stable small integer code sent in the error envelope.
    pub open spec fn spec_error_code(self) -> u8 {
        match self {
            AuthError::PoolError => 0,
            AuthError::DbQueryError => 1,
            AuthError::EmailInvalid => 2,
            AuthError::UsernameInvalid => 3,
            AuthError::HashingFailure => 4,
            AuthError::DbInsertionError => 5,
            AuthError::EmailMustBeUnique => 6,
            AuthError::DbUpdateError => 7,
            AuthError::TokenInvalid => 8,
            AuthError::TokenExpired => 9,
            AuthError::TokenFabricated => 10,
            AuthError::TokenAlreadyUsed => 11,
            AuthError::AlreadyVerified => 12,
            AuthError::PasswordInvalid => 13,
            AuthError::UserNotFound => 14,
            AuthError::WrongPassword => 15,
            AuthError::VerificationFailure => 16,
            AuthError::DuplicateSessionId => 17,
            AuthError::CouldNotRemoveOldSession => 18,
        }
    }

    pub fn error_code(self) -> (r: u8)
        ensures
            r == self.spec_error_code(),
    {
        match self {
            AuthError::PoolError => 0,
            AuthError::DbQueryError => 1,
            AuthError::EmailInvalid => 2,
            AuthError::UsernameInvalid => 3,
            AuthError::HashingFailure => 4,
            AuthError::DbInsertionError => 5,
            AuthError::EmailMustBeUnique => 6,
            AuthError::DbUpdateError => 7,
            AuthError::TokenInvalid => 8,
            AuthError::TokenExpired => 9,
            AuthError::TokenFabricated => 10,
            AuthError::TokenAlreadyUsed => 11,
            AuthError::AlreadyVerified => 12,
            AuthError::PasswordInvalid => 13,
            AuthError::UserNotFound => 14,
            AuthError::WrongPassword => 15,
            AuthError::VerificationFailure => 16,
            AuthError::DuplicateSessionId => 17,
            AuthError::CouldNotRemoveOldSession => 18,
        }
    }

    /// The HTTP status class the kind maps to.
    pub open spec fn spec_http_status(self) -> u16 {
        match self {
            AuthError::PoolError => 500,
            AuthError::DbQueryError => 500,
            AuthError::EmailInvalid => 400,
            AuthError::UsernameInvalid => 400,
            AuthError::HashingFailure => 500,
            AuthError::DbInsertionError => 500,
            AuthError::EmailMustBeUnique => 400,
            AuthError::DbUpdateError => 500,
            AuthError::TokenInvalid => 400,
            AuthError::TokenExpired => 400,
            AuthError::TokenFabricated => 400,
            AuthError::TokenAlreadyUsed => 400,
            AuthError::AlreadyVerified => 400,
            AuthError::PasswordInvalid => 400,
            AuthError::UserNotFound => 404,
            AuthError::WrongPassword => 401,
            AuthError::VerificationFailure => 500,
            AuthError::DuplicateSessionId => 400,
            AuthError::CouldNotRemoveOldSession => 500,
        }
    }

    pub fn http_status(self) -> (r: u16)
        ensures
            r == self.spec_http_status(),
    {
        match self {
            AuthError::PoolError => 500,
            AuthError::DbQueryError => 500,
            AuthError::EmailInvalid => 400,
            AuthError::UsernameInvalid => 400,
            AuthError::HashingFailure => 500,
            AuthError::DbInsertionError => 500,
            AuthError::EmailMustBeUnique => 400,
            AuthError::DbUpdateError => 500,
            AuthError::TokenInvalid => 400,
            AuthError::TokenExpired => 400,
            AuthError::TokenFabricated => 400,
            AuthError::TokenAlreadyUsed => 400,
            AuthError::AlreadyVerified => 400,
            AuthError::PasswordInvalid => 400,
            AuthError::UserNotFound => 404,
            AuthError::WrongPassword => 401,
            AuthError::VerificationFailure => 500,
            AuthError::DuplicateSessionId => 400,
            AuthError::CouldNotRemoveOldSession => 500,
        }
    }

    /// The severity the kind is logged at.
    pub open spec fn spec_severity(self) -> LogSeverity {
        match self {
            AuthError::PoolError => LogSeverity::Error,
            AuthError::DbQueryError => LogSeverity::Error,
            AuthError::EmailInvalid => LogSeverity::Info,
            AuthError::UsernameInvalid => LogSeverity::Info,
            AuthError::HashingFailure => LogSeverity::Error,
            AuthError::DbInsertionError => LogSeverity::Error,
            AuthError::EmailMustBeUnique => LogSeverity::Info,
            AuthError::DbUpdateError => LogSeverity::Error,
            AuthError::TokenInvalid => LogSeverity::Info,
            AuthError::TokenExpired => LogSeverity::Info,
            AuthError::TokenFabricated => LogSeverity::Error,
            AuthError::TokenAlreadyUsed => LogSeverity::Info,
            AuthError::AlreadyVerified => LogSeverity::Info,
            AuthError::PasswordInvalid => LogSeverity::Info,
            AuthError::UserNotFound => LogSeverity::Info,
            AuthError::WrongPassword => LogSeverity::Info,
            AuthError::VerificationFailure => LogSeverity::Info,
            AuthError::DuplicateSessionId => LogSeverity::Info,
            AuthError::CouldNotRemoveOldSession => LogSeverity::Error,
        }
    }

    pub fn severity(self) -> (r: LogSeverity)
        ensures
            r == self.spec_severity(),
    {
        match self {
            AuthError::PoolError => LogSeverity::Error,
            AuthError::DbQueryError => LogSeverity::Error,
            AuthError::EmailInvalid => LogSeverity::Info,
            AuthError::UsernameInvalid => LogSeverity::Info,
            AuthError::HashingFailure => LogSeverity::Error,
            AuthError::DbInsertionError => LogSeverity::Error,
            AuthError::EmailMustBeUnique => LogSeverity::Info,
            AuthError::DbUpdateError => LogSeverity::Error,
            AuthError::TokenInvalid => LogSeverity::Info,
            AuthError::TokenExpired => LogSeverity::Info,
            AuthError::TokenFabricated => LogSeverity::Error,
            AuthError::TokenAlreadyUsed => LogSeverity::Info,
            AuthError::AlreadyVerified => LogSeverity::Info,
            AuthError::PasswordInvalid => LogSeverity::Info,
            AuthError::UserNotFound => LogSeverity::Info,
            AuthError::WrongPassword => LogSeverity::Info,
            AuthError::VerificationFailure => LogSeverity::Info,
            AuthError::DuplicateSessionId => LogSeverity::Info,
            AuthError::CouldNotRemoveOldSession => LogSeverity::Error,
        }
    }

    /// The fixed client-facing message for the kind.
    pub open spec fn spec_message(self) -> Seq<char> {
        match self {
            AuthError::PoolError => "Could not get conn out of pool!"@,
            AuthError::DbQueryError => "Database query failed!"@,
            AuthError::EmailInvalid => "Invalid email address!"@,
            AuthError::UsernameInvalid => "Invalid username!"@,
            AuthError::HashingFailure => "Failed to hash the password!"@,
            AuthError::DbInsertionError => "Database insertion failed!"@,
            AuthError::EmailMustBeUnique => "Email address already exists!"@,
            AuthError::DbUpdateError => "Database update failed!"@,
            AuthError::TokenInvalid => "Invalid email verification token!"@,
            AuthError::TokenExpired => "Email verification token has expired!"@,
            AuthError::TokenFabricated => "Email verification token was fabricated; created_at was in the future!"@,
            AuthError::TokenAlreadyUsed => "Email verification token has already been used!"@,
            AuthError::AlreadyVerified => "User email is already verified!"@,
            AuthError::PasswordInvalid => "Invalid password form! Must contain lower and uppercase characters and digits."@,
            AuthError::UserNotFound => "User not found!"@,
            AuthError::WrongPassword => "Incorrect password!"@,
            AuthError::VerificationFailure => "Wrong password!"@,
            AuthError::DuplicateSessionId => "Session ID already exists!"@,
            AuthError::CouldNotRemoveOldSession => "Could not remove old session!"@,
        }
    }

    pub fn message(self) -> (r: String)
        ensures
            r@ == self.spec_message(),
    {
        match self {
            AuthError::PoolError => "Could not get conn out of pool!".to_owned(),
            AuthError::DbQueryError => "Database query failed!".to_owned(),
            AuthError::EmailInvalid => "Invalid email address!".to_owned(),
            AuthError::UsernameInvalid => "Invalid username!".to_owned(),
            AuthError::HashingFailure => "Failed to hash the password!".to_owned(),
            AuthError::DbInsertionError => "Database insertion failed!".to_owned(),
            AuthError::EmailMustBeUnique => "Email address already exists!".to_owned(),
            AuthError::DbUpdateError => "Database update failed!".to_owned(),
            AuthError::TokenInvalid => "Invalid email verification token!".to_owned(),
            AuthError::TokenExpired => "Email verification token has expired!".to_owned(),
            AuthError::TokenFabricated => "Email verification token was fabricated; created_at was in the future!".to_owned(),
            AuthError::TokenAlreadyUsed => "Email verification token has already been used!".to_owned(),
            AuthError::AlreadyVerified => "User email is already verified!".to_owned(),
            AuthError::PasswordInvalid => "Invalid password form! Must contain lower and uppercase characters and digits.".to_owned(),
            AuthError::UserNotFound => "User not found!".to_owned(),
            AuthError::WrongPassword => "Incorrect password!".to_owned(),
            AuthError::VerificationFailure => "Wrong password!".to_owned(),
            AuthError::DuplicateSessionId => "Session ID already exists!".to_owned(),
            AuthError::CouldNotRemoveOldSession => "Could not remove old session!".to_owned(),
        }
    }
}

} // verus!
