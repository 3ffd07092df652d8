//! What the user interface keeps between its screens, and the state of its
//! components.

pub mod activities;
pub mod context;
pub mod layout;
