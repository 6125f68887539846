//! Verified core of the RV kiosk backend: the rules for purchases and
//! returns, account roles, password and RFID hashing, access tokens and the
//! mapping of errors to HTTP answers.

pub mod actions;
pub mod error;
pub mod text;
pub mod decimal;
pub mod config;
pub mod crypto;
pub mod rfid;
pub mod user;
pub mod auth;
pub mod login;
pub mod category;
pub mod preference;
pub mod product;
pub mod history;
pub mod email;
