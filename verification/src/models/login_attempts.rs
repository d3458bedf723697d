//! The log of sign-in attempts.

use vstd::prelude::*;

verus! {

/// A logged sign-in attempt. `created_at` counts microseconds since the Unix epoch.
#[derive(Clone, Debug, PartialEq, Eq)]
pub struct Model {
    pub id: i32,
    pub user_email: String,
    pub ip_address: Option<String>,
    pub success: bool,
    pub created_at: i64,
    pub provider: Option<String>,
}

/// A sign-in attempt to be logged; the store assigns its id.
#[derive(Clone, Debug, PartialEq, Eq)]
pub struct NewLoginAttempt {
    pub user_email: String,
    pub ip_address: Option<String>,
    pub success: bool,
    pub created_at: i64,
    pub provider: Option<String>,
}

} // verus!
