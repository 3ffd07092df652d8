//! File transfer over secure-shell transports: the protocols, what can go
//! wrong, and one backend per protocol.

use vstd::prelude::*;
use vstd::string::StringExecFns;
use crate::filetransfer::connect::{follows, Attempt, ConnectAction, ConnectReply, Step};
use crate::filetransfer::shell::{
    command_in, shell_outcome, text_result_view, unit_result_view, wrapped, ShellReply,
    ShellReplyView,
};

pub mod connect;
pub mod listing;
pub mod pex;
pub mod removal;
pub mod scp_transfer;
pub mod sftp_transfer;
pub mod shell;

verus! {

/// The protocols a transfer can run over. `Ftp` says whether it is secured.
#[derive(Clone, Copy, Debug, PartialEq, Eq, Structural)]
pub enum FileTransferProtocol {
    Sftp,
    Scp,
    Ftp(bool),
}

/// The kinds of failure of a transfer operation.
#[derive(Clone, Copy, Debug, PartialEq, Eq, Structural)]
pub enum FileTransferErrorType {
    /// Neither the key nor the password was accepted.
    AuthenticationFailed,
    /// Address and port name no host.
    BadAddress,
    /// The transport could not be set up, or did not answer in time.
    ConnectionError,
    /// A directory could not be read.
    DirStatFailed,
    /// Something could not be created.
    FileCreateDenied,
    /// The path names nothing on the remote side.
    NoSuchFileOrDirectory,
    /// The remote side refused for want of permission.
    PexError,
    /// The protocol failed otherwise.
    ProtocolError,
    /// The backend is not connected.
    UninitializedSession,
    /// The protocol has no such operation.
    UnsupportedFeature,
}

/// A failure: its kind and, where the transport gave one, a detail text.
#[derive(Debug, PartialEq, Eq)]
pub struct FileTransferError {
    pub code: FileTransferErrorType,
    pub msg: Option<String>,
}

/// A failure as a value of specifications.
pub struct FileTransferErrorView {
    pub code: FileTransferErrorType,
    pub msg: Option<Seq<char>>,
}

impl View for FileTransferError {
    type V = FileTransferErrorView;

    open spec fn view(&self) -> FileTransferErrorView {
        FileTransferErrorView {
            code: self.code,
            msg: match self.msg {
                Some(m) => Some(m@),
                None => None,
            },
        }
    }
}

/// The failure of kind `code` without a detail.
pub open spec fn plain_error(code: FileTransferErrorType) -> FileTransferErrorView {
    FileTransferErrorView { code, msg: None }
}

/// The failure of kind `code` with the detail `msg`.
pub open spec fn detailed_error(code: FileTransferErrorType, msg: Seq<char>) -> FileTransferErrorView {
    FileTransferErrorView { code, msg: Some(msg) }
}

/// The words for a kind of failure.
pub open spec fn kind_text(code: FileTransferErrorType) -> Seq<char> {
    match code {
        FileTransferErrorType::AuthenticationFailed => "Authentication failed"@,
        FileTransferErrorType::BadAddress => "Bad address syntax"@,
        FileTransferErrorType::ConnectionError => "Connection error"@,
        FileTransferErrorType::DirStatFailed => "Could not stat directory"@,
        FileTransferErrorType::FileCreateDenied => "Failed to create file"@,
        FileTransferErrorType::NoSuchFileOrDirectory => "No such file or directory"@,
        FileTransferErrorType::PexError => "Not enough permissions"@,
        FileTransferErrorType::ProtocolError => "Protocol error"@,
        FileTransferErrorType::UninitializedSession => "Uninitialized session"@,
        FileTransferErrorType::UnsupportedFeature => "Unsupported feature"@,
    }
}

/// A failure in words: its kind, then the detail in parentheses if it has one.
pub open spec fn error_text(e: FileTransferErrorView) -> Seq<char> {
    match e.msg {
        Some(m) => kind_text(e.code) + " ("@ + m + ")"@,
        None => kind_text(e.code),
    }
}

impl FileTransferErrorType {
    /// The words for this kind of failure.
    pub fn text(&self) -> (r: String)
        ensures
            r@ == kind_text(*self),
    {
        match self {
            FileTransferErrorType::AuthenticationFailed => String::from_str(
                "Authentication failed",
            ),
            FileTransferErrorType::BadAddress => String::from_str("Bad address syntax"),
            FileTransferErrorType::ConnectionError => String::from_str("Connection error"),
            FileTransferErrorType::DirStatFailed => String::from_str("Could not stat directory"),
            FileTransferErrorType::FileCreateDenied => String::from_str("Failed to create file"),
            FileTransferErrorType::NoSuchFileOrDirectory => String::from_str(
                "No such file or directory",
            ),
            FileTransferErrorType::PexError => String::from_str("Not enough permissions"),
            FileTransferErrorType::ProtocolError => String::from_str("Protocol error"),
            FileTransferErrorType::UninitializedSession => String::from_str(
                "Uninitialized session",
            ),
            FileTransferErrorType::UnsupportedFeature => String::from_str("Unsupported feature"),
        }
    }
}

impl FileTransferError {
    /// A failure of kind `code` without a detail.
    pub fn new(code: FileTransferErrorType) -> (r: FileTransferError)
        ensures
            r@ == plain_error(code),
    {
        FileTransferError { code, msg: None }
    }

    /// A failure of kind `code` with the detail `msg`.
    pub fn new_ex(code: FileTransferErrorType, msg: String) -> (r: FileTransferError)
        ensures
            r@ == detailed_error(code, msg@),
    {
        FileTransferError { code, msg: Some(msg) }
    }

    /// The kind of this failure.
    pub fn kind(&self) -> (r: FileTransferErrorType)
        ensures
            r == self@.code,
    {
        self.code
    }

    /// This failure in words.
    pub fn message(&self) -> (r: String)
        ensures
            r@ == error_text(self@),
    {
        let mut out: String = self.code.text();
        match &self.msg {
            Some(m) => {
                out.append(" (");
                out.append(m.as_str());
                out.append(")");
            },
            None => {},
        }
        out
    }
}

/// The size of the buffer that the bytes of a file are streamed through.
pub const BUFFER_SIZE: usize = 65536;

/// The text that a session is closed with.
pub open spec fn farewell() -> Seq<char> {
    "Mandi!"@
}

/// What is due where a backend must be connected: `value`, or an
/// `UninitializedSession`.
pub open spec fn guarded<T>(connected: bool, value: T) -> Result<T, FileTransferErrorView> {
    if connected {
        Ok(value)
    } else {
        Err(plain_error(FileTransferErrorType::UninitializedSession))
    }
}

/// What closing the session came to: done, or a `ConnectionError` with the
/// transport's message.
pub open spec fn disconnect_outcome(connected: bool, reply: Result<(), String>) -> Result<
    (),
    FileTransferErrorView,
> {
    if !connected {
        Err(plain_error(FileTransferErrorType::UninitializedSession))
    } else {
        match reply {
            Ok(_) => Ok(()),
            Err(detail) => Err(detailed_error(FileTransferErrorType::ConnectionError, detail@)),
        }
    }
}

/// What running `cmd` in the directory `cwd` came to: all that it wrote, or
/// the failure of the shell, wrapped.
pub open spec fn exec_outcome(
    connected: bool,
    cwd: Seq<char>,
    cmd: Seq<char>,
    reply: ShellReplyView,
) -> Result<Seq<char>, FileTransferErrorView> {
    if !connected {
        Err(plain_error(FileTransferErrorType::UninitializedSession))
    } else {
        match shell_outcome(command_in(cwd, cmd), reply) {
            Ok(out) => Ok(out),
            Err(e) => Err(wrapped(e)),
        }
    }
}

/// What every backend can do, whatever its protocol: connect and
/// disconnect, tell where it is, run a command, and end a transfer.
///
/// A backend is connected from the success of a connection attempt to the
/// success of a disconnection; an attempt that fails changes nothing.
/// While a backend is not connected, its operations fail with
/// `UninitializedSession`.
pub trait FileTransfer {
    /// Whether the backend is connected.
    spec fn connected(&self) -> bool;

    /// The connection that is being set up, if one is.
    spec fn attempt(&self) -> Option<Attempt>;

    /// The working directory.
    spec fn cwd(&self) -> Seq<char>;

    /// Starts to connect to `address` at `port`, and gives the first action.
    /// Starting changes nothing of the connection: a backend that is not
    /// connected stays so until the attempt has succeeded, and one that is
    /// connected stays connected as it is.
    fn connect(
        &mut self,
        address: String,
        port: u16,
        username: Option<String>,
        password: Option<String>,
    ) -> (r: ConnectAction)
        ensures
            r == (ConnectAction::Resolve { address, port }),
            final(self).connected() == old(self).connected(),
            final(self).attempt() is Some,
            final(self).cwd() == old(self).cwd(),
    ;

    /// Takes in how the last action of a connection attempt went, and gives
    /// the next one. With `Established` the backend is connected and its
    /// working directory is the one that the server reported. With
    /// `Abandon` the attempt is over, and the backend is as it was before
    /// the attempt: a connection that stood then still stands. Without an
    /// attempt under way the answer is `Abandon` with
    /// `UninitializedSession`, and nothing changes.
    fn connect_reply(&mut self, reply: ConnectReply) -> (r: ConnectAction)
        ensures
            match old(self).attempt() {
                Some(a) => {
                    &&& follows(a, reply, Step { next: final(self).attempt(), action: r })
                    &&& final(self).connected() == (r is Established || old(self).connected())
                    &&& match r {
                        ConnectAction::Established { wrkdir, .. } => final(self).cwd() == wrkdir@,
                        _ => final(self).cwd() == old(self).cwd(),
                    }
                },
                None => {
                    &&& r matches ConnectAction::Abandon(e)
                    &&& e@ == plain_error(FileTransferErrorType::UninitializedSession)
                    &&& final(self).connected() == old(self).connected()
                    &&& final(self).cwd() == old(self).cwd()
                    &&& final(self).attempt() is None
                },
            },
    ;

    /// The description to close the session with.
    fn disconnect(&self) -> (r: Result<String, FileTransferError>)
        ensures
            text_result_view(r) == guarded(self.connected(), farewell()),
    ;

    /// Takes in how closing the session went. Once it is closed the backend
    /// is not connected; where closing failed it still is.
    fn disconnect_reply(&mut self, reply: Result<(), String>) -> (r: Result<(), FileTransferError>)
        ensures
            final(self).cwd() == old(self).cwd(),
            final(self).attempt() == old(self).attempt(),
            final(self).connected() == (old(self).connected() && reply is Err),
            unit_result_view(r) == disconnect_outcome(old(self).connected(), reply),
    ;

    /// Whether the backend is connected.
    fn is_connected(&self) -> (r: bool)
        ensures
            r == self.connected(),
    ;

    /// The working directory.
    fn pwd(&self) -> (r: Result<String, FileTransferError>)
        ensures
            text_result_view(r) == guarded(self.connected(), self.cwd()),
    ;

    /// The shell command that runs `cmd` as it is, in the working directory.
    fn exec(&self, cmd: &str) -> (r: Result<String, FileTransferError>)
        ensures
            text_result_view(r) == guarded(self.connected(), command_in(self.cwd(), cmd@)),
    ;

    /// Takes in what the command of `exec` wrote, and gives all of it.
    fn exec_reply(&self, cmd: &str, reply: ShellReply) -> (r: Result<String, FileTransferError>)
        ensures
            text_result_view(r) == exec_outcome(self.connected(), self.cwd(), cmd@, reply@),
    ;

    /// Ends the sending of a file, once all of it has been written. To be
    /// called once for each file sent. What there is to do depends on the
    /// protocol; a protocol that has nothing to do succeeds.
    fn on_sent(&self) -> (r: Result<(), FileTransferError>);

    /// Ends the receiving of a file, once all of it has been read. To be
    /// called once for each file received. What there is to do depends on
    /// the protocol; a protocol that has nothing to do succeeds.
    fn on_recv(&self) -> (r: Result<(), FileTransferError>);
}

} // verus!
