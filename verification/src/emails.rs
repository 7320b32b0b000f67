//! The outbound email bodies: HTML templates with a link slot.
//!
//! A template carries the marker `$1` where the action link belongs;
//! setting the link replaces every occurrence of the marker.

use vstd::prelude::*;

use crate::text::replace_all;
use crate::text::spec_replace;

verus! {

/// The body of the password-reset email, with `$1` standing for the
/// reset link.
pub const PASSWORD_RESET_EMAIL: &'static str = "<!DOCTYPE html><html><body><h1>Reset your password</h1><p>Click the link below to choose a new password:</p><a href=\"$1\">Reset password</a><p>If you did not request this, please ignore this message.</p></body></html>";

/// The body of the address-verification email, with `$1` standing for
/// the verification link.
pub const VERIFY_YOUR_EMAIL_TEMPLATE: &'static str = "<!DOCTYPE html><html><body><h1>Please verify your email</h1><p>Click the link below to verify your email address:</p><a href=\"$1\">Verify your email</a><p>If you did not request this, please ignore this message.</p></body></html>";

/// A password-reset email being assembled: the template, then the
/// template with the reset link filled in.
pub struct PasswordResetEmail {
    pub email: String,
}

impl PasswordResetEmail {
    pub fn new() -> (r: PasswordResetEmail)
        ensures
            r.email@ == PASSWORD_RESET_EMAIL@,
    {
        PasswordResetEmail { email: PASSWORD_RESET_EMAIL.to_owned() }
    }

    /// Fills the link slot: every `$1` in the body becomes `link`.
    pub fn set_link(&mut self, link: &str)
        ensures
            final(self).email@ == spec_replace(old(self).email@, "$1"@, link@),
    {
        proof {
            reveal_strlit("$1");
        }
        self.email = replace_all(self.email.as_str(), "$1", link);
    }
}

impl Default for PasswordResetEmail {
    fn default() -> (r: Self)
        ensures
            r.email@ == PASSWORD_RESET_EMAIL@,
    {
        Self::new()
    }
}

} // verus!
