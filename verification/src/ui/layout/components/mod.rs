//! The components of a screen.

pub mod logbox;
pub mod radio_group;
