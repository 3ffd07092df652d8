//! Remote file access over secure-shell transports, written without any I/O
//! of its own.
//!
//! A backend never talks to a server. For every operation it says what to
//! send, as a value: a shell command, a path to ask about, the next step of
//! a connection attempt. The caller sends it and hands back what the server
//! answered, and the backend reads the answer. Operations that take one
//! exchange are a pair of functions, `mkdir` and `mkdir_reply`; those that
//! take several are a sequence of steps, each answered by the next.
//!
//! All that is decided between the exchanges is decided here, and proved:
//! which command an operation runs, what each output means, which entry a
//! line of a listing stands for, in which order a directory tree is
//! removed, and which failure the caller gets to see.

pub mod activity_manager;
pub mod filetransfer;
pub mod fs;
pub mod system;
pub mod ui;
pub mod utils;
