//! Which activity of the program runs next. An activity runs until it gives
//! a reason to leave it; the reason decides what follows.

use vstd::prelude::*;
use vstd::string::StringExecFns;
use crate::ui::activities::ExitReason;

verus! {

/// The activity to run once the running one has ended.
#[derive(Clone, Copy, Debug, PartialEq, Eq, Structural)]
pub enum NextActivity {
    Authentication,
    FileTransfer,
    SetupActivity,
}

/// What a running activity goes on to.
#[derive(Clone, Copy, Debug, PartialEq, Eq, Structural)]
pub enum Course {
    /// The activity stays: draw again after the interval.
    Stay,
    /// The activity ends, and `NextActivity` runs.
    Go(NextActivity),
    /// The activity ends, and the program with it.
    End,
}

/// What the authentication goes on to: quitting ends the program, the
/// setup is entered on request, and a connection leads to the transfer.
pub open spec fn after_authentication(reason: Option<ExitReason>) -> Course {
    match reason {
        Some(ExitReason::Quit) => Course::End,
        Some(ExitReason::EnterSetup) => Course::Go(NextActivity::SetupActivity),
        Some(ExitReason::Connect) => Course::Go(NextActivity::FileTransfer),
        _ => Course::Stay,
    }
}

/// What the transfer goes on to: quitting ends the program, and
/// disconnecting leads back to the authentication.
pub open spec fn after_filetransfer(reason: Option<ExitReason>) -> Course {
    match reason {
        Some(ExitReason::Quit) => Course::End,
        Some(ExitReason::Disconnect) => Course::Go(NextActivity::Authentication),
        _ => Course::Stay,
    }
}

/// What the setup goes on to: it is left only by quitting it, and always
/// for the authentication.
pub open spec fn after_setup(reason: Option<ExitReason>) -> Course {
    match reason {
        Some(ExitReason::Quit) => Course::Go(NextActivity::Authentication),
        _ => Course::Stay,
    }
}

/// Says what the authentication goes on to, given the reason that it gives
/// to leave it, if it gives one.
pub fn run_authentication(reason: Option<ExitReason>) -> (r: Course)
    ensures
        r == after_authentication(reason),
{
    match reason {
        Some(ExitReason::Quit) => Course::End,
        Some(ExitReason::EnterSetup) => Course::Go(NextActivity::SetupActivity),
        Some(ExitReason::Connect) => Course::Go(NextActivity::FileTransfer),
        _ => Course::Stay,
    }
}

/// Says what the transfer goes on to. Without parameters of a connection
/// there is nothing to transfer, and the program ends.
pub fn run_filetransfer(has_params: bool, reason: Option<ExitReason>) -> (r: Course)
    ensures
        r == (if has_params {
            after_filetransfer(reason)
        } else {
            Course::End
        }),
{
    if !has_params {
        return Course::End;
    }
    match reason {
        Some(ExitReason::Quit) => Course::End,
        Some(ExitReason::Disconnect) => Course::Go(NextActivity::Authentication),
        _ => Course::Stay,
    }
}

/// Says what the setup goes on to.
pub fn run_setup(reason: Option<ExitReason>) -> (r: Course)
    ensures
        r == after_setup(reason),
{
    match reason {
        Some(ExitReason::Quit) => Course::Go(NextActivity::Authentication),
        _ => Course::Stay,
    }
}

/// Why there is no configuration to work with.
#[derive(Debug)]
pub enum ConfigFailure {
    /// The directory of the configuration could not be made; the reason.
    Directory(String),
    /// This system has no place for a configuration.
    Unsupported,
    /// The configuration could not be read; the reason.
    Unreadable(String),
}

/// The words for why there is no configuration.
pub open spec fn config_failure_text(failure: ConfigFailure) -> Seq<char> {
    match failure {
        ConfigFailure::Directory(why) => "Could not initialize configuration directory: "@ + why@,
        ConfigFailure::Unsupported => "Your system doesn't support configuration paths"@,
        ConfigFailure::Unreadable(why) => "Could not read configuration: "@ + why@,
    }
}

/// Says in words why there is no configuration.
pub fn init_config_client(failure: ConfigFailure) -> (r: String)
    ensures
        r@ == config_failure_text(failure),
{
    match failure {
        ConfigFailure::Directory(why) => {
            let mut text = String::from_str("Could not initialize configuration directory: ");
            text.append(why.as_str());
            text
        },
        ConfigFailure::Unsupported => String::from_str(
            "Your system doesn't support configuration paths",
        ),
        ConfigFailure::Unreadable(why) => {
            let mut text = String::from_str("Could not read configuration: ");
            text.append(why.as_str());
            text
        },
    }
}

} // verus!
