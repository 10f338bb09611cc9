//! Conversions of typed protocol values between versions.
pub mod content;
pub mod resources;
pub mod tools;
