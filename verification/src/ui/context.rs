//! What the screens of the program share.

use vstd::prelude::*;
use crate::filetransfer::FileTransferProtocol;
use crate::fs::text_view;

verus! {

/// Where to connect, as whom, and over which protocol.
#[derive(Debug)]
pub struct FileTransferParams {
    pub address: String,
    pub port: u16,
    pub protocol: FileTransferProtocol,
    pub username: Option<String>,
    pub password: Option<String>,
    /// The remote directory to start in.
    pub entry_directory: Option<String>,
}

/// Connection parameters as a value of specifications.
pub struct FileTransferParamsView {
    pub address: Seq<char>,
    pub port: u16,
    pub protocol: FileTransferProtocol,
    pub username: Option<Seq<char>>,
    pub password: Option<Seq<char>>,
    pub entry_directory: Option<Seq<char>>,
}

impl View for FileTransferParams {
    type V = FileTransferParamsView;

    open spec fn view(&self) -> FileTransferParamsView {
        FileTransferParamsView {
            address: self.address@,
            port: self.port,
            protocol: self.protocol,
            username: text_view(self.username),
            password: text_view(self.password),
            entry_directory: text_view(self.entry_directory),
        }
    }
}

/// A text that was entered, or nothing where it is empty.
pub open spec fn entered(text: String) -> Option<String> {
    if text@.len() == 0 {
        None
    } else {
        Some(text)
    }
}

impl FileTransferParams {
    /// The parameters as given.
    pub fn new(
        address: String,
        port: u16,
        protocol: FileTransferProtocol,
        username: Option<String>,
        password: Option<String>,
        entry_directory: Option<String>,
    ) -> (r: Self)
        ensures
            r == (FileTransferParams {
                address,
                port,
                protocol,
                username,
                password,
                entry_directory,
            }),
    {
        FileTransferParams { address, port, protocol, username, password, entry_directory }
    }

    /// Takes what was entered in the form as the parameters. An empty user
    /// name or password counts as none; the directory to start in stays.
    pub fn set_from_input(
        &mut self,
        address: String,
        port: u16,
        protocol: FileTransferProtocol,
        username: String,
        password: String,
    )
        ensures
            *final(self) == (FileTransferParams {
                address,
                port,
                protocol,
                username: entered(username),
                password: entered(password),
                entry_directory: old(self).entry_directory,
            }),
    {
        self.address = address;
        self.port = port;
        self.protocol = protocol;
        self.username = if username.as_str().is_empty() {
            None
        } else {
            Some(username)
        };
        self.password = if password.as_str().is_empty() {
            None
        } else {
            Some(password)
        };
    }
}

impl Default for FileTransferParams {
    /// No address yet, port 22, the protocol `Sftp`, and nobody to log in as.
    fn default() -> (r: Self)
        ensures
            r@ == (FileTransferParamsView {
                address: Seq::empty(),
                port: 22,
                protocol: FileTransferProtocol::Sftp,
                username: None,
                password: None,
                entry_directory: None,
            }),
    {
        FileTransferParams {
            address: String::new(),
            port: 22,
            protocol: FileTransferProtocol::Sftp,
            username: None,
            password: None,
            entry_directory: None,
        }
    }
}

} // verus!
