//! Setting up a connection, step by step. The library says what to do next;
//! the caller does it and reports how it went.
//!
//! The steps are: resolve the address, dial the addresses it resolved to one
//! after the other until one answers, shake hands, authenticate, and ask for
//! the directory to start in. Nothing is tried twice.

use vstd::prelude::*;
use vstd::string::StringExecFns;
use crate::filetransfer::shell::{shell_outcome, shell_result, ShellReply};
use crate::filetransfer::{
    detailed_error, plain_error, FileTransferError, FileTransferErrorType, FileTransferErrorView,
};
use crate::fs::text_view;
use crate::utils::text::{chars_of, string_of, trim, trimmed};

verus! {

/// How long to wait for each address to answer, in seconds.
pub const CONNECT_TIMEOUT_SECS: u64 = 30;

/// How to prove who is connecting.
#[derive(Debug, PartialEq, Eq)]
pub enum AuthMethod {
    /// With the private key in the file `key`, which `passphrase` unlocks.
    PublicKey { key: String, passphrase: Option<String> },
    /// With a password.
    Password { password: String },
}

/// Who is connecting, and how to prove it.
#[derive(Debug, PartialEq, Eq)]
pub struct Credentials {
    pub username: String,
    pub method: AuthMethod,
}

/// The text of an optional string, empty where there is none.
pub open spec fn text_or_empty(t: Option<String>) -> Seq<char> {
    match t {
        Some(s) => s@,
        None => Seq::empty(),
    }
}

/// Whether `c` is what to log in with, given the key that is known for the
/// user, if any. A known key is used, with the password as its passphrase;
/// without one the password is. A user or a password that is not given is
/// empty.
pub open spec fn is_credentials(
    c: Credentials,
    key: Option<Seq<char>>,
    username: Option<String>,
    password: Option<String>,
) -> bool {
    &&& c.username@ == text_or_empty(username)
    &&& match key {
        Some(path) => {
            &&& c.method matches AuthMethod::PublicKey { key, passphrase }
            &&& key@ == path
            &&& text_view(passphrase) == text_view(password)
        },
        None => {
            &&& c.method matches AuthMethod::Password { password: word }
            &&& word@ == text_or_empty(password)
        },
    }
}

/// What to log in with.
pub fn credentials(key: Option<String>, username: Option<String>, password: Option<String>) -> (r:
    Credentials)
    ensures
        is_credentials(r, text_view(key), username, password),
{
    let username: String = match username {
        Some(u) => u,
        None => String::new(),
    };
    let method = match key {
        Some(key) => AuthMethod::PublicKey { key, passphrase: password },
        None => AuthMethod::Password {
            password: match password {
                Some(p) => p,
                None => String::new(),
            },
        },
    };
    Credentials { username, method }
}

/// A connection that is being set up: the step that is under way, and what
/// the steps behind it need.
#[derive(Debug, PartialEq, Eq)]
pub enum Attempt {
    Resolving { sftp: bool, credentials: Credentials },
    /// `dialed` is the address that is being tried, of `candidates`.
    Dialing { sftp: bool, credentials: Credentials, candidates: usize, dialed: usize },
    Handshaking { sftp: bool, credentials: Credentials },
    Authenticating { sftp: bool },
    OpeningSftp { banner: Option<String> },
    QueryingDirectory { sftp: bool, banner: Option<String> },
}

/// What the caller has to do next.
#[derive(Debug, PartialEq, Eq)]
pub enum ConnectAction {
    /// Resolve address and port to the addresses they name.
    Resolve { address: String, port: u16 },
    /// Open a stream to one of the resolved addresses, counted from 0.
    Dial { candidate: usize, timeout_secs: u64 },
    /// Start a session on the stream and shake hands.
    Handshake,
    Authenticate { credentials: Credentials },
    /// Open the file transfer subsystem on the session.
    OpenSftp,
    /// Run a command in the remote shell.
    Exec { command: String },
    /// Ask the subsystem for the canonical form of a path.
    RealPath { path: String },
    /// The connection stands. `banner` is the greeting of the server.
    Established { banner: Option<String>, wrkdir: String },
    /// The connection failed; nothing more is to be done.
    Abandon(FileTransferError),
}

/// How the step went that the last action asked for.
#[derive(Debug)]
pub enum ConnectReply {
    /// The address resolved to this many addresses.
    Resolved { candidates: usize },
    /// The step succeeded and gave nothing to report.
    Succeeded,
    /// The server accepted the login; `banner` is its greeting, if it sent
    /// one.
    Authenticated { banner: Option<String> },
    /// How the command went.
    Shell(ShellReply),
    /// The canonical path.
    Path(String),
    /// The step failed; the transport's message.
    Failed { detail: String },
}

/// An attempt that goes on, or has ended, and what the caller has to do.
#[derive(Debug)]
pub struct Step {
    pub next: Option<Attempt>,
    pub action: ConnectAction,
}

/// The attempt has ended in the failure `e`.
pub open spec fn abandons(s: Step, e: FileTransferErrorView) -> bool {
    &&& s.next is None
    &&& s.action matches ConnectAction::Abandon(err)
    &&& err@ == e
}

/// The attempt goes on as `next` with the action `action`.
pub open spec fn goes_on(s: Step, next: Attempt, action: ConnectAction) -> bool {
    s.next == Some(next) && s.action == action
}

/// No address answered.
pub open spec fn timed_out() -> FileTransferErrorView {
    detailed_error(FileTransferErrorType::ConnectionError, "Connection timeout"@)
}

/// Whether `s` is the step that follows when `reply` comes in while `a` is
/// under way.
///
/// An address that does not resolve is a `BadAddress`. The addresses are
/// dialed in their order until one answers; where none does, or there is
/// none, the attempt ends in a `ConnectionError` that says "Connection
/// timeout". A failed handshake is a `ConnectionError`, a refused login an
/// `AuthenticationFailed`, and a subsystem that does not open or gives no
/// directory a `ProtocolError`, each with the transport's message. A shell
/// that fails to say where it is ends the attempt with its own failure. A
/// reply that does not belong to the step under way ends it with a
/// `ProtocolError` without detail.
pub open spec fn follows(a: Attempt, reply: ConnectReply, s: Step) -> bool {
    match (a, reply) {
        (Attempt::Resolving { sftp, credentials }, ConnectReply::Resolved { candidates }) => {
            if candidates == 0 {
                abandons(s, timed_out())
            } else {
                goes_on(
                    s,
                    Attempt::Dialing { sftp, credentials, candidates, dialed: 0 },
                    ConnectAction::Dial { candidate: 0, timeout_secs: CONNECT_TIMEOUT_SECS },
                )
            }
        },
        (Attempt::Resolving { .. }, ConnectReply::Failed { detail }) => abandons(
            s,
            detailed_error(FileTransferErrorType::BadAddress, detail@),
        ),
        (
            Attempt::Dialing { sftp, credentials, .. },
            ConnectReply::Succeeded,
        ) => goes_on(s, Attempt::Handshaking { sftp, credentials }, ConnectAction::Handshake),
        (
            Attempt::Dialing { sftp, credentials, candidates, dialed },
            ConnectReply::Failed { .. },
        ) => {
            if dialed + 1 < candidates {
                goes_on(
                    s,
                    Attempt::Dialing {
                        sftp,
                        credentials,
                        candidates,
                        dialed: (dialed + 1) as usize,
                    },
                    ConnectAction::Dial {
                        candidate: (dialed + 1) as usize,
                        timeout_secs: CONNECT_TIMEOUT_SECS,
                    },
                )
            } else {
                abandons(s, timed_out())
            }
        },
        (
            Attempt::Handshaking { sftp, credentials },
            ConnectReply::Succeeded,
        ) => goes_on(s, Attempt::Authenticating { sftp }, ConnectAction::Authenticate { credentials }),
        (Attempt::Handshaking { .. }, ConnectReply::Failed { detail }) => abandons(
            s,
            detailed_error(FileTransferErrorType::ConnectionError, detail@),
        ),
        (Attempt::Authenticating { sftp }, ConnectReply::Authenticated { banner }) => {
            if sftp {
                goes_on(s, Attempt::OpeningSftp { banner }, ConnectAction::OpenSftp)
            } else {
                &&& s.next == Some(Attempt::QueryingDirectory { sftp, banner })
                &&& s.action matches ConnectAction::Exec { command }
                &&& command@ == "pwd"@
            }
        },
        (Attempt::Authenticating { .. }, ConnectReply::Failed { detail }) => abandons(
            s,
            detailed_error(FileTransferErrorType::AuthenticationFailed, detail@),
        ),
        (Attempt::OpeningSftp { banner }, ConnectReply::Succeeded) => {
            &&& s.next == Some(Attempt::QueryingDirectory { sftp: true, banner })
            &&& s.action matches ConnectAction::RealPath { path }
            &&& path@ == "."@
        },
        (Attempt::OpeningSftp { .. }, ConnectReply::Failed { detail }) => abandons(
            s,
            detailed_error(FileTransferErrorType::ProtocolError, detail@),
        ),
        (Attempt::QueryingDirectory { sftp: true, banner }, ConnectReply::Path(path)) => {
            s.next is None && s.action == (ConnectAction::Established { banner, wrkdir: path })
        },
        (
            Attempt::QueryingDirectory { sftp: true, .. },
            ConnectReply::Failed { detail },
        ) => abandons(s, detailed_error(FileTransferErrorType::ProtocolError, detail@)),
        (Attempt::QueryingDirectory { sftp: false, banner }, ConnectReply::Shell(reply)) => {
            match shell_outcome("pwd"@, reply@) {
                Ok(out) => {
                    &&& s.next is None
                    &&& s.action matches ConnectAction::Established { banner: b, wrkdir }
                    &&& b == banner
                    &&& wrkdir@ == trimmed(out)
                },
                Err(e) => abandons(s, e),
            }
        },
        _ => abandons(s, plain_error(FileTransferErrorType::ProtocolError)),
    }
}

/// The end of an attempt in a failure.
fn abandon(e: FileTransferError) -> (s: Step)
    ensures
        abandons(s, e@),
{
    Step { next: None, action: ConnectAction::Abandon(e) }
}

/// The end of an attempt because no address answered.
fn time_out() -> (s: Step)
    ensures
        abandons(s, timed_out()),
{
    abandon(
        FileTransferError::new_ex(
            FileTransferErrorType::ConnectionError,
            String::from_str("Connection timeout"),
        ),
    )
}

/// The first step of an attempt: to resolve the address.
pub fn begin(sftp: bool, address: String, port: u16, credentials: Credentials) -> (s: Step)
    ensures
        s.next == Some(Attempt::Resolving { sftp, credentials }),
        s.action == (ConnectAction::Resolve { address, port }),
{
    Step {
        next: Some(Attempt::Resolving { sftp, credentials }),
        action: ConnectAction::Resolve { address, port },
    }
}

/// Takes in how the last step went, and says what follows.
pub fn advance(attempt: Attempt, reply: ConnectReply) -> (s: Step)
    ensures
        follows(attempt, reply, s),
{
    match (attempt, reply) {
        (Attempt::Resolving { sftp, credentials }, ConnectReply::Resolved { candidates }) => {
            if candidates == 0 {
                time_out()
            } else {
                Step {
                    next: Some(Attempt::Dialing { sftp, credentials, candidates, dialed: 0 }),
                    action: ConnectAction::Dial { candidate: 0, timeout_secs: CONNECT_TIMEOUT_SECS },
                }
            }
        },
        (Attempt::Resolving { .. }, ConnectReply::Failed { detail }) => abandon(
            FileTransferError::new_ex(FileTransferErrorType::BadAddress, detail),
        ),
        (Attempt::Dialing { sftp, credentials, .. }, ConnectReply::Succeeded) => Step {
            next: Some(Attempt::Handshaking { sftp, credentials }),
            action: ConnectAction::Handshake,
        },
        (
            Attempt::Dialing { sftp, credentials, candidates, dialed },
            ConnectReply::Failed { .. },
        ) => {
            if candidates > 0 && dialed < candidates - 1 {
                Step {
                    next: Some(
                        Attempt::Dialing { sftp, credentials, candidates, dialed: dialed + 1 },
                    ),
                    action: ConnectAction::Dial {
                        candidate: dialed + 1,
                        timeout_secs: CONNECT_TIMEOUT_SECS,
                    },
                }
            } else {
                time_out()
            }
        },
        (Attempt::Handshaking { sftp, credentials }, ConnectReply::Succeeded) => Step {
            next: Some(Attempt::Authenticating { sftp }),
            action: ConnectAction::Authenticate { credentials },
        },
        (Attempt::Handshaking { .. }, ConnectReply::Failed { detail }) => abandon(
            FileTransferError::new_ex(FileTransferErrorType::ConnectionError, detail),
        ),
        (Attempt::Authenticating { sftp }, ConnectReply::Authenticated { banner }) => {
            if sftp {
                Step { next: Some(Attempt::OpeningSftp { banner }), action: ConnectAction::OpenSftp }
            } else {
                Step {
                    next: Some(Attempt::QueryingDirectory { sftp, banner }),
                    action: ConnectAction::Exec { command: String::from_str("pwd") },
                }
            }
        },
        (Attempt::Authenticating { .. }, ConnectReply::Failed { detail }) => abandon(
            FileTransferError::new_ex(FileTransferErrorType::AuthenticationFailed, detail),
        ),
        (Attempt::OpeningSftp { banner }, ConnectReply::Succeeded) => Step {
            next: Some(Attempt::QueryingDirectory { sftp: true, banner }),
            action: ConnectAction::RealPath { path: String::from_str(".") },
        },
        (Attempt::OpeningSftp { .. }, ConnectReply::Failed { detail }) => abandon(
            FileTransferError::new_ex(FileTransferErrorType::ProtocolError, detail),
        ),
        (Attempt::QueryingDirectory { sftp: true, banner }, ConnectReply::Path(path)) => Step {
            next: None,
            action: ConnectAction::Established { banner, wrkdir: path },
        },
        (Attempt::QueryingDirectory { sftp: true, .. }, ConnectReply::Failed { detail }) => abandon(
            FileTransferError::new_ex(FileTransferErrorType::ProtocolError, detail),
        ),
        (Attempt::QueryingDirectory { sftp: false, banner }, ConnectReply::Shell(reply)) => {
            match shell_result("pwd", reply) {
                Ok(out) => Step {
                    next: None,
                    action: ConnectAction::Established {
                        banner,
                        wrkdir: string_of(&trim(&chars_of(out.as_str()))),
                    },
                },
                Err(e) => abandon(e),
            }
        },
        _ => abandon(FileTransferError::new(FileTransferErrorType::ProtocolError)),
    }
}

/// Whether step `i` of `steps` follows when reply `i` of `replies` comes in:
/// the first from the attempt `first`, each other from the attempt that the
/// step before it left.
pub open spec fn follows_at(
    first: Attempt,
    replies: Seq<ConnectReply>,
    steps: Seq<Step>,
    i: int,
) -> bool {
    if i == 0 {
        follows(first, replies[0], steps[0])
    } else {
        steps[i - 1].next is Some && follows(steps[i - 1].next->0, replies[i], steps[i])
    }
}

/// Whether `steps` are the steps of an attempt that starts as `first` and
/// takes in `replies`, one after the other.
pub open spec fn attempt_runs(first: Attempt, replies: Seq<ConnectReply>, steps: Seq<Step>) -> bool {
    &&& steps.len() == replies.len()
    &&& forall|i: int| 0 <= i < replies.len() ==> #[trigger] follows_at(first, replies, steps, i)
}

/// The attempt that dials address `dialed` of `candidates`.
pub open spec fn dialing(
    sftp: bool,
    credentials: Credentials,
    candidates: usize,
    dialed: int,
) -> Step {
    Step {
        next: Some(Attempt::Dialing { sftp, credentials, candidates, dialed: dialed as usize }),
        action: ConnectAction::Dial {
            candidate: dialed as usize,
            timeout_secs: CONNECT_TIMEOUT_SECS,
        },
    }
}

/// While the addresses before it refuse, address `i` is the one that step
/// `i` dials.
proof fn lemma_dials_at(
    sftp: bool,
    credentials: Credentials,
    candidates: usize,
    replies: Seq<ConnectReply>,
    steps: Seq<Step>,
    i: int,
)
    requires
        attempt_runs(Attempt::Resolving { sftp, credentials }, replies, steps),
        0 <= i < replies.len(),
        i < candidates,
        replies[0] == (ConnectReply::Resolved { candidates }),
        forall|k: int| 1 <= k <= i ==> (#[trigger] replies[k]) is Failed,
    ensures
        steps[i] == dialing(sftp, credentials, candidates, i),
    decreases i,
{
    let first = Attempt::Resolving { sftp, credentials };
    assert(follows_at(first, replies, steps, i));
    if i > 0 {
        lemma_dials_at(sftp, credentials, candidates, replies, steps, i - 1);
        assert(replies[i] is Failed);
    }
}

/// The addresses that an address resolved to are dialed in their order,
/// each once, for as long as they refuse; once one answers, the attempt
/// goes on to shake hands, and no other address is dialed.
pub proof fn lemma_dials_in_order(
    sftp: bool,
    credentials: Credentials,
    candidates: usize,
    failures: int,
    replies: Seq<ConnectReply>,
    steps: Seq<Step>,
)
    requires
        attempt_runs(Attempt::Resolving { sftp, credentials }, replies, steps),
        0 <= failures < candidates,
        replies.len() == failures + 2,
        replies[0] == (ConnectReply::Resolved { candidates }),
        forall|k: int| 1 <= k <= failures ==> (#[trigger] replies[k]) is Failed,
        replies[failures + 1] == ConnectReply::Succeeded,
    ensures
        forall|i: int|
            0 <= i <= failures ==> #[trigger] steps[i] == dialing(sftp, credentials, candidates, i),
        steps[failures + 1].next == Some(Attempt::Handshaking { sftp, credentials }),
        steps[failures + 1].action == ConnectAction::Handshake,
{
    let first = Attempt::Resolving { sftp, credentials };
    assert forall|i: int| 0 <= i <= failures implies #[trigger] steps[i] == dialing(
        sftp,
        credentials,
        candidates,
        i,
    ) by {
        lemma_dials_at(sftp, credentials, candidates, replies, steps, i);
    }
    assert(steps[failures] == dialing(sftp, credentials, candidates, failures));
    assert(follows_at(first, replies, steps, failures + 1));
}

/// Where every address refuses, or there is none, the attempt ends in a
/// `ConnectionError` that says "Connection timeout", after each address
/// was dialed once.
pub proof fn lemma_no_address_answers(
    sftp: bool,
    credentials: Credentials,
    candidates: usize,
    replies: Seq<ConnectReply>,
    steps: Seq<Step>,
)
    requires
        attempt_runs(Attempt::Resolving { sftp, credentials }, replies, steps),
        replies.len() == candidates + 1,
        replies[0] == (ConnectReply::Resolved { candidates }),
        forall|k: int| 1 <= k <= candidates ==> (#[trigger] replies[k]) is Failed,
    ensures
        forall|i: int|
            0 <= i < candidates ==> #[trigger] steps[i] == dialing(
                sftp,
                credentials,
                candidates,
                i,
            ),
        abandons(steps[candidates as int], timed_out()),
{
    let first = Attempt::Resolving { sftp, credentials };
    assert forall|i: int| 0 <= i < candidates implies #[trigger] steps[i] == dialing(
        sftp,
        credentials,
        candidates,
        i,
    ) by {
        lemma_dials_at(sftp, credentials, candidates, replies, steps, i);
    }
    assert(follows_at(first, replies, steps, candidates as int));
    if candidates > 0 {
        assert(steps[candidates - 1] == dialing(sftp, credentials, candidates, candidates - 1));
        assert(replies[candidates as int] is Failed);
    }
}

/// Over a shell, once hands are shaken: the login is tried with the
/// credentials, the shell is asked where it is, and with its answer the
/// connection stands, in the directory that it named and with the banner
/// that the server sent.
pub proof fn lemma_shell_login_succeeds(
    credentials: Credentials,
    banner: Option<String>,
    out: String,
    steps: Seq<Step>,
)
    requires
        attempt_runs(
            Attempt::Handshaking { sftp: false, credentials },
            seq![
                ConnectReply::Succeeded,
                ConnectReply::Authenticated { banner },
                ConnectReply::Shell(ShellReply::Output(out)),
            ],
            steps,
        ),
    ensures
        steps[0].action == (ConnectAction::Authenticate { credentials }),
        steps[1].action is Exec,
        steps[1].action->Exec_command@ == "pwd"@,
        steps[2].next is None,
        steps[2].action is Established,
        steps[2].action->Established_banner == banner,
        steps[2].action->Established_wrkdir@ == trimmed(out@),
{
    let first = Attempt::Handshaking { sftp: false, credentials };
    let replies = seq![
        ConnectReply::Succeeded,
        ConnectReply::Authenticated { banner },
        ConnectReply::Shell(ShellReply::Output(out)),
    ];
    assert(follows_at(first, replies, steps, 0));
    assert(follows_at(first, replies, steps, 1));
    assert(follows_at(first, replies, steps, 2));
}

/// Over the file transfer subsystem, once hands are shaken: the login is
/// tried with the credentials, the subsystem is opened and asked for the
/// canonical form of `.`, and with its answer the connection stands, in
/// that directory and with the banner that the server sent.
pub proof fn lemma_subsystem_login_succeeds(
    credentials: Credentials,
    banner: Option<String>,
    path: String,
    steps: Seq<Step>,
)
    requires
        attempt_runs(
            Attempt::Handshaking { sftp: true, credentials },
            seq![
                ConnectReply::Succeeded,
                ConnectReply::Authenticated { banner },
                ConnectReply::Succeeded,
                ConnectReply::Path(path),
            ],
            steps,
        ),
    ensures
        steps[0].action == (ConnectAction::Authenticate { credentials }),
        steps[1].action == ConnectAction::OpenSftp,
        steps[2].action is RealPath,
        steps[2].action->RealPath_path@ == "."@,
        steps[3].next is None,
        steps[3].action == (ConnectAction::Established { banner, wrkdir: path }),
{
    let first = Attempt::Handshaking { sftp: true, credentials };
    let replies = seq![
        ConnectReply::Succeeded,
        ConnectReply::Authenticated { banner },
        ConnectReply::Succeeded,
        ConnectReply::Path(path),
    ];
    assert(follows_at(first, replies, steps, 0));
    assert(follows_at(first, replies, steps, 1));
    assert(follows_at(first, replies, steps, 2));
    assert(follows_at(first, replies, steps, 3));
}

/// Whatever the protocol, a login that the server refuses ends the attempt
/// in an `AuthenticationFailed` with the transport's message, and in
/// nothing else.
pub proof fn lemma_refused_login_fails(
    sftp: bool,
    credentials: Credentials,
    detail: String,
    steps: Seq<Step>,
)
    requires
        attempt_runs(
            Attempt::Handshaking { sftp, credentials },
            seq![ConnectReply::Succeeded, ConnectReply::Failed { detail }],
            steps,
        ),
    ensures
        steps[0].action == (ConnectAction::Authenticate { credentials }),
        abandons(
            steps[1],
            detailed_error(FileTransferErrorType::AuthenticationFailed, detail@),
        ),
{
    let first = Attempt::Handshaking { sftp, credentials };
    let replies = seq![ConnectReply::Succeeded, ConnectReply::Failed { detail }];
    assert(follows_at(first, replies, steps, 0));
    assert(follows_at(first, replies, steps, 1));
}

/// A connection over a shell, from the first step to the last: the address
/// resolves, the addresses before the first that answers are dialed in
/// their order and refuse, hands are shaken, the server takes the login,
/// and the shell says where it is. Then the connection stands, in the
/// directory that the shell named, white space around it dropped, and with
/// the banner that the server sent.
pub proof fn lemma_shell_connection_stands(
    credentials: Credentials,
    candidates: usize,
    failures: int,
    banner: Option<String>,
    out: String,
    replies: Seq<ConnectReply>,
    steps: Seq<Step>,
)
    requires
        attempt_runs(Attempt::Resolving { sftp: false, credentials }, replies, steps),
        0 <= failures < candidates,
        replies.len() == failures + 5,
        replies[0] == (ConnectReply::Resolved { candidates }),
        forall|k: int| 1 <= k <= failures ==> (#[trigger] replies[k]) is Failed,
        replies[failures + 1] == ConnectReply::Succeeded,
        replies[failures + 2] == ConnectReply::Succeeded,
        replies[failures + 3] == (ConnectReply::Authenticated { banner }),
        replies[failures + 4] == ConnectReply::Shell(ShellReply::Output(out)),
    ensures
        forall|i: int|
            0 <= i <= failures ==> #[trigger] steps[i] == dialing(false, credentials, candidates, i),
        steps[failures + 1].action == ConnectAction::Handshake,
        steps[failures + 2].action == (ConnectAction::Authenticate { credentials }),
        steps[failures + 3].action is Exec,
        steps[failures + 3].action->Exec_command@ == "pwd"@,
        steps[failures + 4].next is None,
        steps[failures + 4].action is Established,
        steps[failures + 4].action->Established_banner == banner,
        steps[failures + 4].action->Established_wrkdir@ == trimmed(out@),
{
    let first = Attempt::Resolving { sftp: false, credentials };
    assert forall|i: int| 0 <= i <= failures implies #[trigger] steps[i] == dialing(
        false,
        credentials,
        candidates,
        i,
    ) by {
        lemma_dials_at(false, credentials, candidates, replies, steps, i);
    }
    assert(steps[failures] == dialing(false, credentials, candidates, failures));
    assert(follows_at(first, replies, steps, failures + 1));
    assert(follows_at(first, replies, steps, failures + 2));
    assert(follows_at(first, replies, steps, failures + 3));
    assert(follows_at(first, replies, steps, failures + 4));
}

/// A connection over the file transfer subsystem, from the first step to
/// the last: as over a shell, but that the subsystem is opened and asked
/// for the canonical form of `.`. Then the connection stands in that
/// directory, with the banner that the server sent.
pub proof fn lemma_subsystem_connection_stands(
    credentials: Credentials,
    candidates: usize,
    failures: int,
    banner: Option<String>,
    path: String,
    replies: Seq<ConnectReply>,
    steps: Seq<Step>,
)
    requires
        attempt_runs(Attempt::Resolving { sftp: true, credentials }, replies, steps),
        0 <= failures < candidates,
        replies.len() == failures + 6,
        replies[0] == (ConnectReply::Resolved { candidates }),
        forall|k: int| 1 <= k <= failures ==> (#[trigger] replies[k]) is Failed,
        replies[failures + 1] == ConnectReply::Succeeded,
        replies[failures + 2] == ConnectReply::Succeeded,
        replies[failures + 3] == (ConnectReply::Authenticated { banner }),
        replies[failures + 4] == ConnectReply::Succeeded,
        replies[failures + 5] == ConnectReply::Path(path),
    ensures
        forall|i: int|
            0 <= i <= failures ==> #[trigger] steps[i] == dialing(true, credentials, candidates, i),
        steps[failures + 1].action == ConnectAction::Handshake,
        steps[failures + 2].action == (ConnectAction::Authenticate { credentials }),
        steps[failures + 3].action == ConnectAction::OpenSftp,
        steps[failures + 4].action is RealPath,
        steps[failures + 4].action->RealPath_path@ == "."@,
        steps[failures + 5].next is None,
        steps[failures + 5].action == (ConnectAction::Established { banner, wrkdir: path }),
{
    let first = Attempt::Resolving { sftp: true, credentials };
    assert forall|i: int| 0 <= i <= failures implies #[trigger] steps[i] == dialing(
        true,
        credentials,
        candidates,
        i,
    ) by {
        lemma_dials_at(true, credentials, candidates, replies, steps, i);
    }
    assert(steps[failures] == dialing(true, credentials, candidates, failures));
    assert(follows_at(first, replies, steps, failures + 1));
    assert(follows_at(first, replies, steps, failures + 2));
    assert(follows_at(first, replies, steps, failures + 3));
    assert(follows_at(first, replies, steps, failures + 4));
    assert(follows_at(first, replies, steps, failures + 5));
}

/// A connection whose login the server refuses, from the first step to
/// the last, whatever the protocol: the attempt ends in an
/// `AuthenticationFailed` with the transport's message.
pub proof fn lemma_refused_connection_fails(
    sftp: bool,
    credentials: Credentials,
    candidates: usize,
    failures: int,
    detail: String,
    replies: Seq<ConnectReply>,
    steps: Seq<Step>,
)
    requires
        attempt_runs(Attempt::Resolving { sftp, credentials }, replies, steps),
        0 <= failures < candidates,
        replies.len() == failures + 4,
        replies[0] == (ConnectReply::Resolved { candidates }),
        forall|k: int| 1 <= k <= failures ==> (#[trigger] replies[k]) is Failed,
        replies[failures + 1] == ConnectReply::Succeeded,
        replies[failures + 2] == ConnectReply::Succeeded,
        replies[failures + 3] == (ConnectReply::Failed { detail }),
    ensures
        steps[failures + 2].action == (ConnectAction::Authenticate { credentials }),
        abandons(
            steps[failures + 3],
            detailed_error(FileTransferErrorType::AuthenticationFailed, detail@),
        ),
{
    let first = Attempt::Resolving { sftp, credentials };
    lemma_dials_at(sftp, credentials, candidates, replies, steps, failures);
    assert(follows_at(first, replies, steps, failures + 1));
    assert(follows_at(first, replies, steps, failures + 2));
    assert(follows_at(first, replies, steps, failures + 3));
}

/// The steps of an attempt from step `from` on are the steps of the
/// attempt that the step before left, with the replies from there on.
pub proof fn lemma_run_goes_on(
    first: Attempt,
    replies: Seq<ConnectReply>,
    steps: Seq<Step>,
    from: int,
)
    requires
        attempt_runs(first, replies, steps),
        0 < from <= replies.len(),
        steps[from - 1].next is Some,
    ensures
        attempt_runs(steps[from - 1].next->0, replies.skip(from), steps.skip(from)),
{
    let next = steps[from - 1].next->0;
    let rest = replies.skip(from);
    let left = steps.skip(from);
    assert forall|i: int| 0 <= i < rest.len() implies #[trigger] follows_at(
        next,
        rest,
        left,
        i,
    ) by {
        assert(follows_at(first, replies, steps, i + from));
        assert(rest[i] == replies[i + from]);
        assert(left[i] == steps[i + from]);
        if i > 0 {
            assert(left[i - 1] == steps[i + from - 1]);
        }
    }
}

} // verus!
