//! The decisions behind each endpoint, one module per route.

pub mod docdetails;
pub mod docs;
pub mod me;
pub mod otp;
pub mod otpverify;
pub mod prompt;
