//! Commands for a remote shell, and the reading of what it answers. Each
//! command runs on a channel of its own; the caller opens the channel, runs
//! the command and reads its output to the end.

use vstd::prelude::*;
use vstd::string::StringExecFns;
use crate::filetransfer::{
    detailed_error, error_text, FileTransferError, FileTransferErrorType, FileTransferErrorView,
};
use crate::utils::text::{chars_of, trim, trimmed};

verus! {

/// How running a command went.
#[derive(Debug, PartialEq, Eq)]
pub enum ShellReply {
    /// The command ran; this is all it wrote to its standard output.
    Output(String),
    /// No channel could be opened; the transport's message.
    ChannelFailed(String),
    /// The command could not be started; the transport's message.
    ExecFailed(String),
    /// The output could not be read; the transport's message.
    ReadFailed(String),
}

/// How running a command went, as a value of specifications.
pub enum ShellReplyView {
    Output(Seq<char>),
    ChannelFailed(Seq<char>),
    ExecFailed(Seq<char>),
    ReadFailed(Seq<char>),
}

impl View for ShellReply {
    type V = ShellReplyView;

    open spec fn view(&self) -> ShellReplyView {
        match self {
            ShellReply::Output(s) => ShellReplyView::Output(s@),
            ShellReply::ChannelFailed(s) => ShellReplyView::ChannelFailed(s@),
            ShellReply::ExecFailed(s) => ShellReplyView::ExecFailed(s@),
            ShellReply::ReadFailed(s) => ShellReplyView::ReadFailed(s@),
        }
    }
}

/// `command`, to be run in the directory `dir`.
pub open spec fn command_in(dir: Seq<char>, command: Seq<char>) -> Seq<char> {
    "cd \""@ + dir + "\"; "@ + command
}

/// What came of running `command`: its output, or a `ProtocolError` that
/// says which step failed and why.
pub open spec fn shell_outcome(command: Seq<char>, reply: ShellReplyView) -> Result<
    Seq<char>,
    FileTransferErrorView,
> {
    match reply {
        ShellReplyView::Output(out) => Ok(out),
        ShellReplyView::ChannelFailed(why) => Err(
            detailed_error(FileTransferErrorType::ProtocolError, "Could not open channel: "@ + why),
        ),
        ShellReplyView::ExecFailed(why) => Err(
            detailed_error(
                FileTransferErrorType::ProtocolError,
                "Could not execute command \""@ + command + "\": "@ + why,
            ),
        ),
        ShellReplyView::ReadFailed(why) => Err(
            detailed_error(FileTransferErrorType::ProtocolError, "Could not read output: "@ + why),
        ),
    }
}

/// A failed command as the operation that ran it reports it: a
/// `ProtocolError` whose detail is the failure in words.
pub open spec fn wrapped(e: FileTransferErrorView) -> FileTransferErrorView {
    detailed_error(FileTransferErrorType::ProtocolError, error_text(e))
}

/// Whether the output says that the command succeeded: it is, but for white
/// space around it, the exit status `0`.
pub open spec fn reports_success(output: Seq<char>) -> bool {
    let t = trimmed(output);
    t.len() == 1 && t[0] == '0'
}

/// What a command that ends in `echo $?` came to: done where it ran and
/// reported success; `denied`, with `subject` in quotes as detail, where it
/// ran and did not; a wrapped `ProtocolError` where it did not run.
pub open spec fn status_outcome(
    command: Seq<char>,
    reply: ShellReplyView,
    denied: FileTransferErrorType,
    subject: Seq<char>,
) -> Result<(), FileTransferErrorView> {
    match shell_outcome(command, reply) {
        Ok(out) => if reports_success(out) {
            Ok(())
        } else {
            Err(detailed_error(denied, quoted(subject)))
        },
        Err(e) => Err(wrapped(e)),
    }
}

/// `text` between double quotes.
pub open spec fn quoted(text: Seq<char>) -> Seq<char> {
    "\""@ + text + "\""@
}

/// What an optional text or failure holds.
pub open spec fn text_result_view(r: Result<String, FileTransferError>) -> Result<
    Seq<char>,
    FileTransferErrorView,
> {
    match r {
        Ok(s) => Ok(s@),
        Err(e) => Err(e@),
    }
}

/// What a done-or-failed holds.
pub open spec fn unit_result_view(r: Result<(), FileTransferError>) -> Result<
    (),
    FileTransferErrorView,
> {
    match r {
        Ok(_) => Ok(()),
        Err(e) => Err(e@),
    }
}

/// Puts `text` between double quotes.
pub fn quote(text: &str) -> (r: String)
    ensures
        r@ == quoted(text@),
{
    let mut out = String::from_str("\"");
    out.append(text);
    out.append("\"");
    out
}

/// The command that runs `command` in the directory `dir`.
pub fn in_directory(dir: &str, command: &str) -> (r: String)
    ensures
        r@ == command_in(dir@, command@),
{
    let mut out = String::from_str("cd \"");
    out.append(dir);
    out.append("\"; ");
    out.append(command);
    out
}

/// Reads how running `command` went: its output, or the failure.
pub fn shell_result(command: &str, reply: ShellReply) -> (r: Result<String, FileTransferError>)
    ensures
        text_result_view(r) == shell_outcome(command@, reply@),
{
    match reply {
        ShellReply::Output(out) => Ok(out),
        ShellReply::ChannelFailed(why) => {
            let mut msg = String::from_str("Could not open channel: ");
            msg.append(why.as_str());
            Err(FileTransferError::new_ex(FileTransferErrorType::ProtocolError, msg))
        },
        ShellReply::ExecFailed(why) => {
            let mut msg = String::from_str("Could not execute command \"");
            msg.append(command);
            msg.append("\": ");
            msg.append(why.as_str());
            Err(FileTransferError::new_ex(FileTransferErrorType::ProtocolError, msg))
        },
        ShellReply::ReadFailed(why) => {
            let mut msg = String::from_str("Could not read output: ");
            msg.append(why.as_str());
            Err(FileTransferError::new_ex(FileTransferErrorType::ProtocolError, msg))
        },
    }
}

/// The failure of a command as the operation that ran it reports it.
pub fn wrap(e: &FileTransferError) -> (r: FileTransferError)
    ensures
        r@ == wrapped(e@),
{
    FileTransferError::new_ex(FileTransferErrorType::ProtocolError, e.message())
}

/// Tells whether the output of a command that ends in `echo $?` reports
/// success.
pub fn succeeded(output: &str) -> (r: bool)
    ensures
        r == reports_success(output@),
{
    let t = trim(&chars_of(output));
    t.len() == 1 && t[0] == '0'
}

/// Reads what a command that ends in `echo $?` came to.
pub fn status_result(
    command: &str,
    reply: ShellReply,
    denied: FileTransferErrorType,
    subject: &str,
) -> (r: Result<(), FileTransferError>)
    ensures
        unit_result_view(r) == status_outcome(command@, reply@, denied, subject@),
{
    match shell_result(command, reply) {
        Ok(out) => if succeeded(out.as_str()) {
            Ok(())
        } else {
            Err(FileTransferError::new_ex(denied, quote(subject)))
        },
        Err(e) => Err(wrap(&e)),
    }
}

} // verus!
