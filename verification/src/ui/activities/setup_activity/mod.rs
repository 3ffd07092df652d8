//! The screen that changes the configuration and the keys.

pub mod config;
