//! Authentication and session-lifecycle core for a small blog platform.
//!
//! The crate covers the pieces of the backend with real invariants:
//! password hashing and verification, single-use time-bound verification
//! tokens, an in-memory session store with expiry pruning, and the
//! signup / login / logout / verify-email / reset-password flows with
//! their closed error taxonomy. Timestamps are plain milliseconds since
//! the Unix epoch; identifiers are 128-bit values.

pub mod config;
pub mod domain;
pub mod emails;
pub mod errors;
pub mod flows;
pub mod ids;
pub mod passwords;
pub mod schedule;
pub mod session;
pub mod text;
pub mod time;
pub mod tokens;
pub mod validate;

pub use config::DbConfig;
pub use config::DbConfigError;
pub use config::DbType;
pub use config::EmailConfig;
pub use domain::NewUser;
pub use domain::User;
pub use emails::PasswordResetEmail;
pub use errors::AuthError;
pub use errors::LogSeverity;
pub use flows::EmailValidateResponse;
pub use flows::FallbackHandlerResponse;
pub use flows::LoginResponse;
pub use flows::LogoutResponse;
pub use flows::ResetPasswordRequestResponse;
pub use flows::SignupResponse;
pub use passwords::generate_random_password;
pub use passwords::hash_pw;
pub use passwords::hash_then_verify;
pub use passwords::verify_pw;
pub use schedule::next_scheduled_delay;
pub use schedule::next_scheduled_hour_mark;
pub use schedule::next_scheduled_hourly_delay;
pub use schedule::next_scheduled_mark;
pub use session::SessionError;
pub use session::SessionRecord;
pub use session::SessionStore;
pub use time::format_dt_difference;
pub use time::format_duration;
pub use time::now_millis;
pub use time::std_now;
pub use tokens::issue_email_verification_token;
pub use tokens::issue_password_reset_token;
pub use tokens::validate_token;
pub use tokens::NewTokenRecord;
pub use tokens::TokenRecord;
pub use validate::validate_password_form;
pub use validate::validate_username;
