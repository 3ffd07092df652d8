//! The screens of the program, as far as their decisions go.

use vstd::prelude::*;

pub mod auth_activity;
pub mod setup_activity;

verus! {

/// Why a screen wants to be left.
#[derive(Clone, Copy, Debug, PartialEq, Eq, Structural)]
pub enum ExitReason {
    Quit,
    Connect,
    Disconnect,
    EnterSetup,
}

} // verus!
