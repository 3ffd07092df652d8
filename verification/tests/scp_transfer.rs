use termscp::filetransfer::connect::{AuthMethod, ConnectAction, ConnectReply, Credentials};
use termscp::filetransfer::listing::LinkResolution;
use termscp::filetransfer::scp_transfer::{ScpFileTransfer, ScpSend};
use termscp::filetransfer::shell::ShellReply;
use termscp::filetransfer::{FileTransfer, FileTransferError, FileTransferErrorType};
use termscp::fs::{FsDirectory, FsEntry, FsFile};
use termscp::system::sshkey_storage::{SshKey, SshKeyStorage};

// A server that lets `demo` in with `password` and starts in `/`, as far as
// connecting goes: the replies to the actions of a connection attempt.
fn connect_to_demo_server(
    client: &mut ScpFileTransfer,
    address: &str,
    username: Option<String>,
    password: Option<String>,
) -> Result<Option<String>, FileTransferError> {
    let mut action = client.connect(String::from(address), 22, username, password);
    loop {
        let reply = match action {
            ConnectAction::Resolve { address, port } => {
                assert_eq!(port, 22);
                if address == "test.rebex.net" {
                    ConnectReply::Resolved { candidates: 1 }
                } else {
                    ConnectReply::Failed {
                        detail: String::from("failed to lookup address information"),
                    }
                }
            }
            ConnectAction::Dial { candidate, timeout_secs } => {
                assert_eq!(candidate, 0);
                assert_eq!(timeout_secs, 30);
                ConnectReply::Succeeded
            }
            ConnectAction::Handshake => ConnectReply::Succeeded,
            ConnectAction::Authenticate { credentials } => {
                let accepted = Credentials {
                    username: String::from("demo"),
                    method: AuthMethod::Password { password: String::from("password") },
                };
                if credentials == accepted {
                    ConnectReply::Authenticated { banner: None }
                } else {
                    ConnectReply::Failed { detail: String::from("Authentication failed") }
                }
            }
            ConnectAction::Exec { command } => {
                assert_eq!(command, "pwd");
                ConnectReply::Shell(ShellReply::Output(String::from("/\n")))
            }
            ConnectAction::Established { banner, wrkdir } => {
                assert_eq!(wrkdir, "/");
                return Ok(banner);
            }
            ConnectAction::Abandon(e) => return Err(e),
            other => panic!("not an action of this protocol: {:?}", other),
        };
        action = client.connect_reply(reply);
    }
}

fn demo_client() -> ScpFileTransfer {
    let mut client: ScpFileTransfer = ScpFileTransfer::new(SshKeyStorage::empty());
    assert!(connect_to_demo_server(
        &mut client,
        "test.rebex.net",
        Some(String::from("demo")),
        Some(String::from("password"))
    )
    .is_ok());
    client
}

fn omar() -> FsFile {
    FsFile {
        name: String::from("omar.txt"),
        abs_path: String::from("/omar.txt"),
        last_change_time: 0,
        last_access_time: 0,
        creation_time: 0,
        size: 0,
        ftype: Some(String::from("txt")),
        readonly: true,
        symlink: None,
        user: Some(0),
        group: Some(0),
        unix_pex: Some((6, 4, 4)),
    }
}

fn out(text: &str) -> ShellReply {
    ShellReply::Output(String::from(text))
}

// A client as the program builds it, with a transcript in place of the
// network: the commands that the server is sent, and what it writes back.
struct Client {
    core: ScpFileTransfer,
}

fn server_says(command: &str) -> ShellReply {
    let listing = "total 12\n\
        drwxr-xr-x 2 demo users 4096 Mar 19  2007 .\n\
        drwxr-xr-x 2 demo users 4096 Mar 19  2007 ..\n\
        drwxr-xr-x 2 demo users 4096 Mar 19  2007 aspnet_client\n\
        drwxr-xr-x 2 demo users 4096 Mar 19  2007 pub\n\
        -rw-r--r-- 1 demo users  405 Mar 19  2007 readme.txt\n";
    let output = match command {
        "cd \"/\"; cd \"./pub/\"; echo $?; pwd" => "0\n/pub\n",
        "cd \"/pub\"; cd \"/pub\"; echo $?; pwd" => "0\n/pub\n",
        "cd \"/\"; cd \"/omar/gabber\"; echo $?; pwd" => "1\n/\n",
        "cd \"/\"; cd \"./gomar/pett\"; echo $?; pwd" => "1\n/\n",
        "cd \"/\"; ls -la \"/\"" => listing,
        "cd \"/\"; ls -l \"/readme.txt\"" => {
            "-rw-r--r-- 1 demo users  405 Mar 19  2007 /readme.txt\n"
        }
        "cd \"/\"; echo 5" => "5\n",
        other => panic!("the server was not to be sent {:?}", other),
    };
    ShellReply::Output(String::from(output))
}

impl Client {
    fn new(key_storage: SshKeyStorage) -> Client {
        Client { core: ScpFileTransfer::new(key_storage) }
    }

    fn connect(
        &mut self,
        address: String,
        port: u16,
        username: Option<String>,
        password: Option<String>,
    ) -> Result<Option<String>, FileTransferError> {
        assert_eq!(port, 22);
        connect_to_demo_server(&mut self.core, address.as_str(), username, password)
    }

    fn disconnect(&mut self) -> Result<(), FileTransferError> {
        assert_eq!(self.core.disconnect()?, "Mandi!");
        self.core.disconnect_reply(Ok(()))
    }

    fn is_connected(&self) -> bool {
        self.core.is_connected()
    }

    fn pwd(&mut self) -> Result<String, FileTransferError> {
        self.core.pwd()
    }

    fn change_dir(&mut self, dir: &str) -> Result<String, FileTransferError> {
        let command = self.core.change_dir(dir)?;
        self.core.change_dir_reply(dir, server_says(command.as_str()))
    }

    fn list_dir(&mut self, path: &str) -> Result<Vec<FsEntry>, FileTransferError> {
        let command = self.core.list_dir(path)?;
        let reply = server_says(command.as_str());
        assert!(self.core.list_dir_links(path, &reply).is_empty());
        self.core.list_dir_reply(path, reply, 2021, &Vec::new())
    }

    fn mkdir(&mut self, dir: &str) -> Result<(), FileTransferError> {
        let command = self.core.mkdir(dir)?;
        self.core.mkdir_reply(dir, server_says(command.as_str()))
    }

    fn stat(&mut self, path: &str) -> Result<FsEntry, FileTransferError> {
        let command = self.core.stat(path, false)?;
        let reply = server_says(command.as_str());
        assert_eq!(self.core.stat_link(path, &reply), None);
        self.core.stat_reply(path, reply, 2021, None)
    }

    fn exec(&mut self, cmd: &str) -> Result<String, FileTransferError> {
        let command = FileTransfer::exec(&self.core, cmd)?;
        self.core.exec_reply(cmd, server_says(command.as_str()))
    }

    fn send_file(&mut self, local: &FsFile, file_name: &str) -> Result<(), FileTransferError> {
        self.core.send_file(local, file_name, None)?;
        self.core.send_file_reply(Ok(()))
    }

    fn recv_file(&mut self, file: &FsFile) -> Result<(), FileTransferError> {
        let path = self.core.recv_file(file)?;
        let opened = if path == "/readme.txt" {
            Ok(())
        } else {
            Err(String::from("no such file"))
        };
        self.core.recv_file_reply(opened)
    }
}

#[test]
fn test_filetransfer_scp_new() {
    let client: Client = Client::new(SshKeyStorage::empty());
    assert_eq!(client.is_connected(), false);
}

#[test]
fn test_filetransfer_scp_connect() {
    let mut client: Client = Client::new(SshKeyStorage::empty());
    assert_eq!(client.is_connected(), false);
    assert!(client
        .connect(
            String::from("test.rebex.net"),
            22,
            Some(String::from("demo")),
            Some(String::from("password"))
        )
        .is_ok());
    // Check session and scp
    assert_eq!(client.is_connected(), true);
    // Disconnect
    assert!(client.disconnect().is_ok());
    assert_eq!(client.is_connected(), false);
}

#[test]
fn test_filetransfer_scp_bad_auth() {
    let mut client: Client = Client::new(SshKeyStorage::empty());
    assert!(client
        .connect(
            String::from("test.rebex.net"),
            22,
            Some(String::from("demo")),
            Some(String::from("badpassword"))
        )
        .is_err());
}

#[test]
fn test_filetransfer_scp_no_credentials() {
    let mut client: Client = Client::new(SshKeyStorage::empty());
    assert!(client
        .connect(String::from("test.rebex.net"), 22, None, None)
        .is_err());
}

#[test]
fn test_filetransfer_scp_bad_server() {
    let mut client: Client = Client::new(SshKeyStorage::empty());
    assert!(client
        .connect(
            String::from("mybadserver.veryverybad.awful"),
            22,
            None,
            None
        )
        .is_err());
}

#[test]
fn test_filetransfer_scp_pwd() {
    let mut client: Client = Client::new(SshKeyStorage::empty());
    assert!(client
        .connect(
            String::from("test.rebex.net"),
            22,
            Some(String::from("demo")),
            Some(String::from("password"))
        )
        .is_ok());
    // Pwd
    assert_eq!(client.pwd().ok().unwrap(), String::from("/"));
    // Disconnect
    assert!(client.disconnect().is_ok());
}

#[test]
fn test_filetransfer_scp_cwd() {
    let mut client: Client = Client::new(SshKeyStorage::empty());
    assert!(client
        .connect(
            String::from("test.rebex.net"),
            22,
            Some(String::from("demo")),
            Some(String::from("password"))
        )
        .is_ok());
    // Cwd (relative)
    assert!(client.change_dir("pub/").is_ok());
    // Cwd (absolute)
    assert!(client.change_dir("/pub").is_ok());
    // Disconnect
    assert!(client.disconnect().is_ok());
}

#[test]
fn test_filetransfer_scp_cwd_error() {
    let mut client: Client = Client::new(SshKeyStorage::empty());
    assert!(client
        .connect(
            String::from("test.rebex.net"),
            22,
            Some(String::from("demo")),
            Some(String::from("password"))
        )
        .is_ok());
    // Cwd (abs)
    assert!(client.change_dir("/omar/gabber").is_err());
    // Cwd (rel)
    assert!(client.change_dir("gomar/pett").is_err());
    // Disconnect
    assert!(client.disconnect().is_ok());
}

#[test]
fn test_filetransfer_scp_ls() {
    let mut client: Client = Client::new(SshKeyStorage::empty());
    assert!(client
        .connect(
            String::from("test.rebex.net"),
            22,
            Some(String::from("demo")),
            Some(String::from("password"))
        )
        .is_ok());
    // List dir
    let pwd: String = client.pwd().ok().unwrap();
    let files: Vec<FsEntry> = client.list_dir(pwd.as_str()).ok().unwrap();
    assert_eq!(files.len(), 3); // There are 3 files
                                // Disconnect
    assert!(client.disconnect().is_ok());
}

#[test]
fn test_filetransfer_scp_stat() {
    let mut client: Client = Client::new(SshKeyStorage::empty());
    assert!(client
        .connect(
            String::from("test.rebex.net"),
            22,
            Some(String::from("demo")),
            Some(String::from("password"))
        )
        .is_ok());
    let file: FsEntry = client.stat("readme.txt").ok().unwrap();
    if let FsEntry::File(file) = file {
        assert_eq!(file.abs_path, String::from("/readme.txt"));
    } else {
        panic!("Expected readme.txt to be a file");
    }
}

#[test]
fn test_filetransfer_scp_exec() {
    let mut client: Client = Client::new(SshKeyStorage::empty());
    assert!(client
        .connect(
            String::from("test.rebex.net"),
            22,
            Some(String::from("demo")),
            Some(String::from("password"))
        )
        .is_ok());
    // Exec
    assert_eq!(client.exec("echo 5").ok().unwrap().as_str(), "5\n");
    // Disconnect
    assert!(client.disconnect().is_ok());
}

#[test]
fn test_filetransfer_scp_recv() {
    let mut client: Client = Client::new(SshKeyStorage::empty());
    assert!(client
        .connect(
            String::from("test.rebex.net"),
            22,
            Some(String::from("demo")),
            Some(String::from("password"))
        )
        .is_ok());
    let file: FsFile = FsFile {
        name: String::from("readme.txt"),
        abs_path: String::from("/readme.txt"),
        last_change_time: 0,
        last_access_time: 0,
        creation_time: 0,
        size: 0,
        ftype: Some(String::from("txt")), // File type
        readonly: true,
        symlink: None,             // UNIX only
        user: Some(0),             // UNIX only
        group: Some(0),            // UNIX only
        unix_pex: Some((6, 4, 4)), // UNIX only
    };
    // Receive file
    assert!(client.recv_file(&file).is_ok());
    // Disconnect
    assert!(client.disconnect().is_ok());
}

#[test]
fn test_filetransfer_scp_recv_failed_nosuchfile() {
    let mut client: Client = Client::new(SshKeyStorage::empty());
    assert!(client
        .connect(
            String::from("test.rebex.net"),
            22,
            Some(String::from("demo")),
            Some(String::from("password"))
        )
        .is_ok());
    // Receive file
    let file: FsFile = FsFile {
        name: String::from("omar.txt"),
        abs_path: String::from("/omar.txt"),
        last_change_time: 0,
        last_access_time: 0,
        creation_time: 0,
        size: 0,
        ftype: Some(String::from("txt")), // File type
        readonly: true,
        symlink: None,             // UNIX only
        user: Some(0),             // UNIX only
        group: Some(0),            // UNIX only
        unix_pex: Some((6, 4, 4)), // UNIX only
    };
    assert!(client.recv_file(&file).is_err());
    // Disconnect
    assert!(client.disconnect().is_ok());
}

#[test]
fn test_filetransfer_scp_uninitialized() {
    let file: FsFile = FsFile {
        name: String::from("omar.txt"),
        abs_path: String::from("/omar.txt"),
        last_change_time: 0,
        last_access_time: 0,
        creation_time: 0,
        size: 0,
        ftype: Some(String::from("txt")), // File type
        readonly: true,
        symlink: None,             // UNIX only
        user: Some(0),             // UNIX only
        group: Some(0),            // UNIX only
        unix_pex: Some((6, 4, 4)), // UNIX only
    };
    let mut scp: Client = Client::new(SshKeyStorage::empty());
    assert!(scp.change_dir("/tmp").is_err());
    assert!(scp.disconnect().is_err());
    assert!(scp.list_dir("/tmp").is_err());
    assert!(scp.mkdir("/tmp").is_err());
    assert!(scp.pwd().is_err());
    assert!(scp.stat("/tmp").is_err());
    assert!(scp.recv_file(&file).is_err());
    assert!(scp.send_file(&file, "/tmp/omar.txt").is_err());
}

#[test]
fn every_operation_needs_a_connection() {
    let file: FsFile = omar();
    let entry = FsEntry::File(omar());
    let mut scp: ScpFileTransfer = ScpFileTransfer::new(SshKeyStorage::empty());
    let kind = FileTransferErrorType::UninitializedSession;
    assert_eq!(scp.change_dir("/tmp").err().unwrap().kind(), kind);
    assert_eq!(scp.change_dir_reply("/tmp", out("0\n/tmp")).err().unwrap().kind(), kind);
    assert_eq!(scp.copy(&entry, "/a").err().unwrap().kind(), kind);
    assert_eq!(scp.copy_reply(&entry, "/a", out("0")).err().unwrap().kind(), kind);
    assert_eq!(scp.disconnect().err().unwrap().kind(), kind);
    assert_eq!(scp.disconnect_reply(Ok(())).err().unwrap().kind(), kind);
    assert_eq!(scp.exec("ls").err().unwrap().kind(), kind);
    assert_eq!(scp.exec_reply("ls", out("a")).err().unwrap().kind(), kind);
    assert_eq!(scp.list_dir("/tmp").err().unwrap().kind(), kind);
    assert_eq!(scp.list_dir_reply("/tmp", out(""), 2021, &Vec::new()).err().unwrap().kind(), kind);
    assert_eq!(scp.mkdir("/tmp").err().unwrap().kind(), kind);
    assert_eq!(scp.mkdir_reply("/tmp", out("0")).err().unwrap().kind(), kind);
    assert_eq!(scp.pwd().err().unwrap().kind(), kind);
    assert_eq!(scp.remove(&entry).err().unwrap().kind(), kind);
    assert_eq!(scp.remove_reply(&entry, out("0")).err().unwrap().kind(), kind);
    assert_eq!(scp.rename(&entry, "/a").err().unwrap().kind(), kind);
    assert_eq!(scp.rename_reply(&entry, "/a", out("0")).err().unwrap().kind(), kind);
    assert_eq!(scp.stat("/tmp", false).err().unwrap().kind(), kind);
    assert_eq!(scp.stat_reply("/tmp", out(""), 2021, None).err().unwrap().kind(), kind);
    assert_eq!(scp.recv_file(&file).err().unwrap().kind(), kind);
    assert_eq!(scp.recv_file_reply(Ok(())).err().unwrap().kind(), kind);
    assert_eq!(scp.send_file(&file, "/tmp/omar.txt", None).err().unwrap().kind(), kind);
    assert_eq!(scp.send_file_reply(Ok(())).err().unwrap().kind(), kind);
    assert_eq!(
        scp.connect_reply(ConnectReply::Succeeded),
        ConnectAction::Abandon(FileTransferError::new(kind))
    );
    assert_eq!(scp.is_connected(), false);
}

#[test]
fn stat_needs_a_connection_whatever_is_known_of_the_path() {
    let scp: ScpFileTransfer = ScpFileTransfer::new(SshKeyStorage::empty());
    for is_dir in [false, true] {
        let err = scp.stat("/tmp", is_dir).err().unwrap();
        assert_eq!(err, FileTransferError::new(FileTransferErrorType::UninitializedSession));
    }
    let listing = out("total 0\n");
    assert_eq!(scp.stat_link("/tmp", &listing), None);
    assert_eq!(
        scp.stat_reply("/tmp", out("total 0\n"), 2021, None).err().unwrap().kind(),
        FileTransferErrorType::UninitializedSession
    );
    assert_eq!(
        scp.resolve_link("/tmp", out("total 0\n"), 2021),
        LinkResolution { is_dir: false, entry: None }
    );
}

#[test]
fn stat_refuses_directories() {
    let client = demo_client();
    let err = client.stat("/pub", true).err().unwrap();
    assert_eq!(err.kind(), FileTransferErrorType::UnsupportedFeature);
    assert_eq!(
        err.message(),
        "Unsupported feature (stat is not supported for directories)"
    );
    assert_eq!(client.stat("/pub", false).ok().unwrap(), "cd \"/\"; ls -l \"/pub\"");
    let contents = "total 4\n-rw-r--r-- 1 demo users 405 Mar 19  2007 readme.txt\n";
    assert_eq!(client.stat_link("/pub", &out(contents)), None);
    let err = client.stat_reply("/pub", out(contents), 2021, None).err().unwrap();
    assert_eq!(
        err.message(),
        "Unsupported feature (stat is not supported for directories)"
    );
    for empty in ["total 0\n", "total 0", "total\n", "total\t12\r\n"] {
        let err = client.stat_reply("/pub", out(empty), 2021, None).err().unwrap();
        assert_eq!(err.kind(), FileTransferErrorType::UnsupportedFeature);
    }
    for other in ["", "\ntotal 0\n", "totals 0\n", "Total 0\n", " total 0\n", "tota"] {
        let err = client.stat_reply("/pub", out(other), 2021, None).err().unwrap();
        assert_eq!(err.kind(), FileTransferErrorType::NoSuchFileOrDirectory);
    }
}

#[test]
fn the_stat_of_its_target_decides_what_a_link_is() {
    let client = demo_client();
    let contents = "total 4\n-rw-r--r-- 1 demo users 405 Mar 19  2007 readme.txt\n";
    assert_eq!(
        client.resolve_link("/usr/bin", out(contents), 2021),
        LinkResolution { is_dir: true, entry: None }
    );
    let line = "-rw-r--r-- 1 demo users 405 Mar 19  2007 /readme.txt\n";
    let readme = client.stat_reply("/readme.txt", out(line), 2021, None).ok().unwrap();
    assert_eq!(
        client.resolve_link("/readme.txt", out(line), 2021),
        LinkResolution { is_dir: false, entry: Some(readme) }
    );
    assert_eq!(client.resolve_link("/gone", out(""), 2021), LinkResolution::unresolved());
    assert_eq!(
        client.resolve_link("/gone", ShellReply::ReadFailed(String::from("eof")), 2021),
        LinkResolution { is_dir: false, entry: None }
    );
    // A link in the target's place is an entry, but is not followed.
    let link = "lrwxrwxrwx 1 demo users 4 Mar 19  2007 /a -> /b\n";
    match client.resolve_link("/a", out(link), 2021).entry {
        Some(FsEntry::File(f)) => assert_eq!(f.symlink, None),
        _ => panic!("an unresolved link is a file"),
    }
}

#[test]
fn stat_of_what_is_not_there() {
    let client = demo_client();
    let err = client
        .stat_reply("omar.txt", out("ls: omar.txt: No such file or directory\n"), 2021, None)
        .err()
        .unwrap();
    assert_eq!(err, FileTransferError::new(FileTransferErrorType::NoSuchFileOrDirectory));
    let err = client.stat_reply("/", out(""), 2021, None).err().unwrap();
    assert_eq!(err.message(), "Unsupported feature (Path has no parent)");
}

#[test]
fn stat_follows_a_link_once() {
    let client = demo_client();
    let line = "lrwxrwxrwx 1 demo users 4 Mar 19  2007 /link -> /pub/readme.txt";
    assert_eq!(client.stat_link("/link", &out(line)).as_deref(), Some("/pub/readme.txt"));
    assert_eq!(
        client.stat("/pub/readme.txt", false).ok().unwrap(),
        "cd \"/\"; ls -l \"/pub/readme.txt\""
    );
    let target = client
        .stat_reply(
            "/pub/readme.txt",
            out("-rw-r--r-- 1 demo users 405 Mar 19  2007 /pub/readme.txt"),
            2021,
            None,
        )
        .ok()
        .unwrap();
    let found = LinkResolution { is_dir: false, entry: Some(target.clone()) };
    match client.stat_reply("/link", out(line), 2021, Some(found)).ok().unwrap() {
        FsEntry::File(f) => {
            assert_eq!(f.name, "link");
            assert_eq!(f.abs_path, "/link");
            assert_eq!(f.symlink, Some(Box::new(target)));
        }
        FsEntry::Directory(_) => panic!("the target is a file"),
    }
}

#[test]
fn commands_report_their_exit_status() {
    let client = demo_client();
    let dir = FsEntry::Directory(FsDirectory {
        name: String::from("b"),
        abs_path: String::from("/a/b"),
        last_change_time: 0,
        last_access_time: 0,
        creation_time: 0,
        readonly: false,
        symlink: None,
        user: None,
        group: None,
        unix_pex: None,
    });
    assert_eq!(client.mkdir("x y").ok().unwrap(), "cd \"/\"; mkdir \"x y\"; echo $?");
    assert!(client.mkdir_reply("x y", out(" 0\n")).is_ok());
    let err = client.mkdir_reply("x y", out("1\n")).err().unwrap();
    assert_eq!(err.message(), "Failed to create file (\"x y\")");
    assert_eq!(client.remove(&dir).ok().unwrap(), "cd \"/\"; rm -rf \"/a/b\"; echo $?");
    assert!(client.remove_reply(&dir, out("0")).is_ok());
    let err = client.remove_reply(&dir, out("")).err().unwrap();
    assert_eq!(err.message(), "Not enough permissions (\"/a/b\")");
    assert_eq!(
        client.rename(&dir, "/c").ok().unwrap(),
        "cd \"/\"; mv -f \"/a/b\" \"/c\"; echo $?"
    );
    assert!(client.rename_reply(&dir, "/c", out("0\n")).is_ok());
    let err = client.rename_reply(&dir, "/c", out("00")).err().unwrap();
    assert_eq!(err.message(), "Not enough permissions (\"/a/b\")");
    assert_eq!(
        client.copy(&dir, "/c").ok().unwrap(),
        "cd \"/\"; cp -rf \"/a/b\" \"/c\"; echo $?"
    );
    assert!(client.copy_reply(&dir, "/c", out("0\n")).is_ok());
    let err = client.copy_reply(&dir, "/c", out("1\n")).err().unwrap();
    assert_eq!(err.kind(), FileTransferErrorType::FileCreateDenied);
    assert_eq!(err.message(), "Failed to create file (\"/c\")");
}

#[test]
fn a_failed_shell_is_a_protocol_error() {
    let mut client = demo_client();
    let err = client
        .mkdir_reply("x", ShellReply::ChannelFailed(String::from("closed")))
        .err()
        .unwrap();
    assert_eq!(err.kind(), FileTransferErrorType::ProtocolError);
    assert_eq!(err.message(), "Protocol error (Protocol error (Could not open channel: closed))");
    let err = client
        .exec_reply("ls", ShellReply::ExecFailed(String::from("denied")))
        .err()
        .unwrap();
    assert_eq!(
        err.message(),
        "Protocol error (Protocol error (Could not execute command \"cd \"/\"; ls\": denied))"
    );
    let err = client
        .change_dir_reply("x", ShellReply::ReadFailed(String::from("eof")))
        .err()
        .unwrap();
    assert_eq!(err.message(), "Protocol error (Protocol error (Could not read output: eof))");
    assert_eq!(client.pwd().ok().unwrap(), "/");
    assert!(client
        .list_dir_reply("/", ShellReply::ReadFailed(String::from("eof")), 2021, &Vec::new())
        .is_err());
}

#[test]
fn sending_takes_mode_times_and_the_size_on_disk() {
    let client = demo_client();
    let mut file = omar();
    file.size = 7;
    file.last_change_time = 11;
    file.last_access_time = 13;
    assert_eq!(
        client.send_file(&file, "/tmp/omar.txt", Some(42)).ok().unwrap(),
        ScpSend { path: String::from("/tmp/omar.txt"), mode: 0o644, size: 42, times: (11, 13) }
    );
    file.unix_pex = Some((7, 5, 4));
    assert_eq!(
        client.send_file(&file, "omar.txt", None).ok().unwrap(),
        ScpSend { path: String::from("omar.txt"), mode: 0o754, size: 7, times: (11, 13) }
    );
    file.unix_pex = None;
    assert_eq!(client.send_file(&file, "omar.txt", None).ok().unwrap().mode, 0o644);
    assert!(client.send_file_reply(Ok(())).is_ok());
    assert!(client.on_sent().is_ok());
    let err = client.send_file_reply(Err(String::from("no space"))).err().unwrap();
    assert_eq!(err.message(), "Protocol error (no space)");
}

#[test]
fn a_known_key_goes_before_the_password() {
    let keys = SshKeyStorage::new(vec![SshKey {
        host: String::from("test.rebex.net"),
        username: String::from("demo"),
        path: String::from("/home/demo/.ssh/id_rsa"),
    }]);
    let mut client = ScpFileTransfer::new(keys);
    client.connect(
        String::from("test.rebex.net"),
        22,
        Some(String::from("demo")),
        Some(String::from("password")),
    );
    client.connect_reply(ConnectReply::Resolved { candidates: 1 });
    client.connect_reply(ConnectReply::Succeeded);
    assert_eq!(
        client.connect_reply(ConnectReply::Succeeded),
        ConnectAction::Authenticate {
            credentials: Credentials {
                username: String::from("demo"),
                method: AuthMethod::PublicKey {
                    key: String::from("/home/demo/.ssh/id_rsa"),
                    passphrase: Some(String::from("password")),
                },
            },
        }
    );
}

#[test]
fn disconnecting_may_fail() {
    let mut client = demo_client();
    let err = client.disconnect_reply(Err(String::from("broken pipe"))).err().unwrap();
    assert_eq!(err.message(), "Connection error (broken pipe)");
    assert!(client.is_connected());
    assert!(client.disconnect_reply(Ok(())).is_ok());
    assert!(!client.is_connected());
    assert!(client.disconnect_reply(Ok(())).is_err());
}

#[test]
fn a_change_of_directory_needs_its_exit_status() {
    let mut client = demo_client();
    for output in ["", "\n", "1\n/pub", "x0\n/pub", "-0 /pub", "bash: cd: a: No such file"] {
        let err = client.change_dir_reply("a", out(output)).err().unwrap();
        assert_eq!(err.kind(), FileTransferErrorType::NoSuchFileOrDirectory);
        assert_eq!(err.message(), "No such file or directory (\"a\")");
        assert_eq!(client.pwd().ok().unwrap(), "/");
    }
    assert_eq!(client.change_dir_reply("a", out(" 0\n /a b \n")).ok().unwrap(), "/a b");
    assert_eq!(client.change_dir_reply("a", out("0")).ok().unwrap(), "");
    assert_eq!(client.change_dir_reply("a", out("00\n")).ok().unwrap(), "0");
}

#[test]
fn a_listing_with_links_asks_for_each_once() {
    let client = demo_client();
    let listing = "total 3\n\
        lrwxrwxrwx 1 demo users 4 Mar 19  2007 tools -> /usr/bin\n\
        lrwxrwxrwx 1 demo users 4 Mar 19  2007 same -> /other/same\n\
        lrwxrwxrwx 1 demo users 4 Mar 19  2007 doc -> readme.txt\n";
    let targets = client.list_dir_links("/", &out(listing));
    assert_eq!(targets, vec![String::from("/usr/bin"), String::from("readme.txt")]);
    assert_eq!(
        client.stat("readme.txt", false).ok().unwrap(),
        "cd \"/\"; ls -l \"/readme.txt\""
    );
    let readme = client
        .stat_reply(
            "readme.txt",
            out("-rw-r--r-- 1 demo users 405 Mar 19  2007 /readme.txt\n"),
            2021,
            None,
        )
        .ok()
        .unwrap();
    let found = vec![
        LinkResolution { is_dir: true, entry: None },
        LinkResolution { is_dir: false, entry: Some(readme.clone()) },
    ];
    let entries = client.list_dir_reply("/", out(listing), 2021, &found).ok().unwrap();
    assert_eq!(entries.len(), 3);
    match &entries[0] {
        FsEntry::Directory(d) => {
            assert_eq!(d.name, "tools");
            assert_eq!(d.symlink, None);
        }
        FsEntry::File(_) => panic!("the target is a directory"),
    }
    match &entries[1] {
        FsEntry::File(f) => {
            assert_eq!(f.name, "same");
            assert_eq!(f.symlink, None);
        }
        FsEntry::Directory(_) => panic!("a link to its own name is not looked up"),
    }
    match &entries[2] {
        FsEntry::File(f) => {
            assert_eq!(f.name, "doc");
            assert_eq!(f.symlink, Some(Box::new(readme)));
        }
        FsEntry::Directory(_) => panic!("the target is a file"),
    }
}

#[test]
fn a_failed_attempt_leaves_a_connection_standing() {
    let mut client = demo_client();
    assert!(client.is_connected());
    // The server refuses the login of the next attempt.
    let refused = connect_to_demo_server(
        &mut client,
        "test.rebex.net",
        Some(String::from("demo")),
        Some(String::from("badpassword")),
    );
    assert_eq!(refused.err().unwrap().kind(), FileTransferErrorType::AuthenticationFailed);
    assert!(client.is_connected());
    assert_eq!(client.pwd().ok().unwrap(), "/");
    // The address of the attempt after it names no host.
    assert!(connect_to_demo_server(&mut client, "mybadserver.veryverybad.awful", None, None)
        .is_err());
    assert!(client.is_connected());
    // While an attempt is under way the connection stands too.
    client.connect(String::from("test.rebex.net"), 22, None, None);
    assert!(client.is_connected());
    client.connect_reply(ConnectReply::Resolved { candidates: 0 });
    assert!(client.is_connected());
    assert!(client.disconnect_reply(Ok(())).is_ok());
    assert!(!client.is_connected());
    // Once disconnected, a failed attempt leaves the backend disconnected.
    assert!(connect_to_demo_server(&mut client, "mybadserver.veryverybad.awful", None, None)
        .is_err());
    assert!(!client.is_connected());
    assert!(client.pwd().is_err());
}
