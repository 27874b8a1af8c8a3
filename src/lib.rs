//! Password credentials and signed session tokens for the market backend.
//!
//! `Auth` derives and checks PBKDF2 password credentials and issues and
//! checks HMAC-SHA-256 signed, time-bounded session tokens.

pub mod auth;
pub mod crypto;
pub mod models;
pub mod web;

pub use auth::Auth;
pub use models::{AuthError, PasswordHash, Settings, TokenReq, User, UserReq};
