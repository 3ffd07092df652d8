//! What the library takes from the system around it.

pub mod sshkey_storage;
