//! Helpers shared by the rest of the library.

pub mod parser;
pub mod path;
pub mod text;
