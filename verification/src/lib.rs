//! Account and session rules of a small web sign-in service: decimal user ids
//! carried in cookies, the sign-in lockout, password and token hashing, form
//! validation, the account services and the outcome of each web handler.

pub mod text;
pub mod decimal;
pub mod models;
pub mod web;
pub mod validators;
pub mod services;
pub mod controllers;
