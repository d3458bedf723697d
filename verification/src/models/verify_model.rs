//! One-time codes mailed to users, and the forms that carry them back.

use vstd::prelude::*;

verus! {

/// A stored code: only its argon2 hash is kept. `expires_at` counts
/// microseconds since the Unix epoch.
#[derive(Clone, Debug, PartialEq, Eq)]
pub struct Model {
    pub id: i32,
    pub user_id: i32,
    pub token_hash: String,
    pub expires_at: i64,
    pub used: bool,
}

/// A code record to be inserted; the store assigns its id, and `used` starts false.
#[derive(Clone, Debug, PartialEq, Eq)]
pub struct NewToken {
    pub user_id: i32,
    pub token_hash: String,
    pub expires_at: i64,
}

/// The form that carries a mailed code back.
#[derive(Clone, Debug, PartialEq, Eq)]
pub struct EmailVerify {
    pub token: String,
}

/// The form that asks for a password reset code.
#[derive(Clone, Debug, PartialEq, Eq)]
pub struct PasswordVerify {
    pub email: String,
}

} // verus!
