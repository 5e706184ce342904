//! Passwordless sign-in: one-time codes, signed session tokens and the
//! guard that protected requests pass through.
//!
//! The user store, the clock and code delivery stay with the caller. Each
//! function here takes what the caller fetched and returns what to do next.

pub mod auth;
pub mod bearer;
pub mod laws;
pub mod models;
pub mod otp;
pub mod routes;
pub mod token;
