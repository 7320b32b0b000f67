//! The user records the auth flows exchange with the external user store.
//!
//! The store owns the lifecycle of these records; the flows read them and
//! conditionally update the email-verified flag. Timestamps are
//! milliseconds since the Unix epoch, identifiers 128-bit values.

use vstd::prelude::*;

verus! {

/// A stored user as read back from the user store.
#[derive(Clone, Debug)]
pub struct User {
    pub user_id: u128,
    pub user_name: String,
    pub user_email: String,
    pub user_password_hash: String,
    pub user_created_at: i64,
    pub user_updated_at: i64,
    pub user_is_email_verified: bool,
}

/// A user to be inserted: the validated name and email with the password
/// hash, as the insert statement takes them.
pub struct NewUser<'nu> {
    user_name: &'nu str,
    user_email: &'nu str,
    user_password_hash: &'nu str,
}

impl<'nu> NewUser<'nu> {
    pub closed spec fn spec_user_name(self) -> Seq<char> {
        self.user_name@
    }

    pub closed spec fn spec_user_email(self) -> Seq<char> {
        self.user_email@
    }

    pub closed spec fn spec_user_password_hash(self) -> Seq<char> {
        self.user_password_hash@
    }

    pub fn new(user_name: &'nu str, user_email: &'nu str, user_password_hash: &'nu str) -> (r:
        Self)
        ensures
            r.spec_user_name() == user_name@,
            r.spec_user_email() == user_email@,
            r.spec_user_password_hash() == user_password_hash@,
    {
        Self { user_name, user_email, user_password_hash }
    }

    pub fn user_name(&self) -> (r: &'nu str)
        ensures
            r@ == self.spec_user_name(),
    {
        self.user_name
    }

    pub fn user_email(&self) -> (r: &'nu str)
        ensures
            r@ == self.spec_user_email(),
    {
        self.user_email
    }

    pub fn user_password_hash(&self) -> (r: &'nu str)
        ensures
            r@ == self.spec_user_password_hash(),
    {
        self.user_password_hash
    }
}

} // verus!
