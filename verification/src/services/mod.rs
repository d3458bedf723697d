//! The account services: the sign-in log and lockout, secrets, and accounts.

pub mod log_service;
pub mod secrets;
pub mod mail;
pub mod user_service;
pub mod session;
