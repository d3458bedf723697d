//! The records that the service stores and the forms that it receives.

pub mod user_model;
pub mod login_attempts;
pub mod verify_model;
