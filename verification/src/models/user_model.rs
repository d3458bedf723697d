//! Accounts, the data shown of them, and the forms that create and reset them.

use vstd::prelude::*;

verus! {

/// A stored account.
#[derive(Clone, Debug, PartialEq, Eq)]
pub struct Model {
    pub id: i32,
    /// Absent only for some accounts made by a sign-in through GitHub.
    pub email: Option<String>,
    /// The argon2 hash of the password; absent for accounts made through GitHub.
    pub password: Option<String>,
    pub is_active: bool,
    pub oauth_provider: Option<String>,
    pub oauth_id: Option<String>,
    pub twofa_enabled: bool,
}

/// An account to be inserted; the store assigns its id, and two-factor
/// sign-in starts switched off.
#[derive(Clone, Debug, PartialEq, Eq)]
pub struct NewUser {
    pub email: Option<String>,
    pub password: Option<String>,
    pub is_active: bool,
    pub oauth_provider: Option<String>,
    pub oauth_id: Option<String>,
}

/// The registration form.
#[derive(Clone, Debug, PartialEq, Eq)]
pub struct UserForm {
    pub email: String,
    pub password: String,
    pub password2: String,
    pub g_recaptcha_response: String,
}

/// The sign-in form.
#[derive(Clone, Debug, PartialEq, Eq)]
pub struct LogIn {
    pub email: String,
    pub password: String,
}

/// The password reset form.
#[derive(Clone, Debug, PartialEq, Eq)]
pub struct ResetsPassword {
    pub token: String,
    pub password: String,
    pub password2: String,
    pub g_recaptcha_response: String,
}

/// What the pages show of an account.
#[derive(Clone, Debug, PartialEq, Eq)]
pub struct UserDTO {
    pub id: i32,
    pub email: String,
    pub is_active: bool,
    pub oauth_provider: Option<String>,
    pub twofa_enabled: bool,
}

} // verus!
