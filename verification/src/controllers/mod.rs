//! The page handlers' decisions.

pub mod user_controller;
