//! Password generation, strength scoring and master-password rules for the
//! Lilypad vault front-end.

pub mod charset;
pub mod config;
pub mod generator;
pub mod requirements;
pub mod session;
pub mod strength;
pub mod welcome;
