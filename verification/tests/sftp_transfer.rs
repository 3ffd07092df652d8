use termscp::filetransfer::connect::{AuthMethod, ConnectAction, ConnectReply, Credentials};
use termscp::filetransfer::removal::{Awaiting, RemoveAction, RemoveReply, RemoveStep};
use termscp::filetransfer::sftp_transfer::{
    is_symlink, link_to_look_up, make_fsentry, Canonical, FileStat, RemoteFile, SftpFileTransfer, SftpMkdir,
    SftpRename, SftpSend,
};
use termscp::filetransfer::shell::ShellReply;
use termscp::filetransfer::{FileTransfer, FileTransferError, FileTransferErrorType};
use termscp::fs::{FsDirectory, FsEntry, FsFile};
use termscp::system::sshkey_storage::SshKeyStorage;

// The replies of a server that lets `demo` in with `password` and starts
// in `/`.
fn connect_to_demo_server(
    client: &mut SftpFileTransfer,
    address: &str,
    username: Option<String>,
    password: Option<String>,
) -> Result<Option<String>, FileTransferError> {
    let mut action = client.connect(String::from(address), 22, username, password);
    loop {
        let reply = match action {
            ConnectAction::Resolve { address, port } => {
                assert_eq!(port, 22);
                if address == "test.rebex.net" {
                    ConnectReply::Resolved { candidates: 2 }
                } else {
                    ConnectReply::Failed {
                        detail: String::from("failed to lookup address information"),
                    }
                }
            }
            ConnectAction::Dial { candidate, timeout_secs } => {
                assert_eq!(timeout_secs, 30);
                if candidate == 0 {
                    ConnectReply::Failed { detail: String::from("timed out") }
                } else {
                    ConnectReply::Succeeded
                }
            }
            ConnectAction::Handshake => ConnectReply::Succeeded,
            ConnectAction::Authenticate { credentials } => {
                let accepted = Credentials {
                    username: String::from("demo"),
                    method: AuthMethod::Password { password: String::from("password") },
                };
                if credentials == accepted {
                    ConnectReply::Authenticated { banner: Some(String::from("hello")) }
                } else {
                    ConnectReply::Failed { detail: String::from("Authentication failed") }
                }
            }
            ConnectAction::OpenSftp => ConnectReply::Succeeded,
            ConnectAction::RealPath { path } => {
                assert_eq!(path, ".");
                ConnectReply::Path(String::from("/"))
            }
            ConnectAction::Established { banner, wrkdir } => {
                assert_eq!(wrkdir, "/");
                return Ok(banner);
            }
            ConnectAction::Abandon(e) => return Err(e),
            other => panic!("not an action of this protocol: {:?}", other),
        };
        action = client.connect_reply(reply);
    }
}

fn demo_client() -> SftpFileTransfer {
    let mut client: SftpFileTransfer = SftpFileTransfer::new(SshKeyStorage::empty());
    assert!(connect_to_demo_server(
        &mut client,
        "test.rebex.net",
        Some(String::from("demo")),
        Some(String::from("password"))
    )
    .is_ok());
    client
}

fn omar() -> FsFile {
    FsFile {
        name: String::from("omar.txt"),
        abs_path: String::from("/omar.txt"),
        last_change_time: 0,
        last_access_time: 0,
        creation_time: 0,
        size: 0,
        ftype: Some(String::from("txt")),
        readonly: true,
        symlink: None,
        user: Some(0),
        group: Some(0),
        unix_pex: Some((6, 4, 4)),
    }
}

fn file_at(path: &str) -> FsEntry {
    make_fsentry(path, &regular(0), None)
}

fn dir_at(path: &str) -> FsEntry {
    make_fsentry(path, &directory(), None)
}

fn regular(size: u64) -> FileStat {
    FileStat {
        size: Some(size),
        uid: Some(1000),
        gid: Some(100),
        perm: Some(0o100644),
        atime: Some(1600000000),
        mtime: Some(1500000000),
    }
}

fn directory() -> FileStat {
    FileStat { perm: Some(0o040755), ..regular(4096) }
}

fn symlink() -> FileStat {
    FileStat { perm: Some(0o120777), ..regular(11) }
}

// A client as the program builds it, with a small server in place of the
// network: it holds two directories and a file below its root.
struct Client {
    core: SftpFileTransfer,
}

fn server_stat(path: &str) -> Result<FileStat, String> {
    match path {
        "/" | "/pub" | "/aspnet_client" => Ok(directory()),
        "/readme.txt" => Ok(regular(405)),
        _ => Err(String::from("no such file")),
    }
}

// The canonical form of a path, and whether anything is there.
fn server_look_up(query: &str) -> Canonical {
    let mut parts: Vec<&str> = Vec::new();
    for part in query.split('/') {
        match part {
            "" | "." => {}
            ".." => {
                parts.pop();
            }
            name => parts.push(name),
        }
    }
    let real = format!("/{}", parts.join("/"));
    match server_stat(real.as_str()) {
        Ok(_) => Canonical::Found(real),
        Err(detail) => Canonical::Missing { detail },
    }
}

fn server_readdir(dir: &str) -> Result<Vec<RemoteFile>, String> {
    match dir {
        "/" => Ok(vec![
            RemoteFile { path: String::from("/aspnet_client"), stat: directory() },
            RemoteFile { path: String::from("/pub"), stat: directory() },
            RemoteFile { path: String::from("/readme.txt"), stat: regular(405) },
        ]),
        "/pub" | "/aspnet_client" => Ok(Vec::new()),
        _ => Err(String::from("no such directory")),
    }
}

impl Client {
    fn new(key_storage: SshKeyStorage) -> Client {
        Client { core: SftpFileTransfer::new(key_storage) }
    }

    fn connect(
        &mut self,
        address: String,
        port: u16,
        username: Option<String>,
        password: Option<String>,
    ) -> Result<Option<String>, FileTransferError> {
        assert_eq!(port, 22);
        connect_to_demo_server(&mut self.core, address.as_str(), username, password)
    }

    fn disconnect(&mut self) -> Result<(), FileTransferError> {
        assert_eq!(self.core.disconnect()?, "Mandi!");
        self.core.disconnect_reply(Ok(()))
    }

    fn is_connected(&self) -> bool {
        self.core.is_connected()
    }

    fn pwd(&mut self) -> Result<String, FileTransferError> {
        self.core.pwd()
    }

    fn change_dir(&mut self, dir: &str) -> Result<String, FileTransferError> {
        let query = self.core.change_dir(dir)?;
        self.core.change_dir_reply(dir, server_look_up(query.as_str()))
    }

    fn copy(&mut self, src: &FsEntry, dst: &str) -> Result<(), FileTransferError> {
        self.core.copy(src, dst)
    }

    fn list_dir(&mut self, path: &str) -> Result<Vec<FsEntry>, FileTransferError> {
        let query = self.core.list_dir(path)?;
        let dir = self.core.get_remote_path(path, server_look_up(query.as_str()))?;
        let files = server_readdir(dir.as_str());
        self.core.list_dir_reply(files, &Vec::new())
    }

    fn mkdir(&mut self, dir: &str) -> Result<(), FileTransferError> {
        self.core.mkdir(dir, None)?;
        self.core.mkdir_reply(Err(String::from("permission denied")))
    }

    fn stat(&mut self, path: &str) -> Result<FsEntry, FileTransferError> {
        let query = self.core.stat(path)?;
        let real = self.core.get_remote_path(path, server_look_up(query.as_str()))?;
        self.core.stat_reply(real.as_str(), server_stat(real.as_str()), None)
    }

    fn exec(&mut self, cmd: &str) -> Result<String, FileTransferError> {
        let command = FileTransfer::exec(&self.core, cmd)?;
        assert_eq!(command, "cd \"/\"; echo 5");
        self.core.exec_reply(cmd, ShellReply::Output(String::from("5\n")))
    }

    fn send_file(&mut self, local: &FsFile, file_name: &str) -> Result<(), FileTransferError> {
        self.core.send_file(local, file_name, None)?;
        self.core.send_file_reply(Err(String::from("permission denied")))
    }

    fn recv_file(&mut self, file: &FsFile) -> Result<(), FileTransferError> {
        let query = self.core.recv_file(file)?;
        let found = server_look_up(query.as_str());
        self.core.get_remote_path(file.abs_path.as_str(), found)?;
        self.core.recv_file_reply(Ok(()))
    }
}

#[test]
fn test_filetransfer_sftp_new() {
    let mut client: Client = Client::new(SshKeyStorage::empty());
    assert_eq!(client.is_connected(), false);
    assert!(client.pwd().is_err());
}

#[test]
fn test_filetransfer_sftp_connect() {
    let mut client: Client = Client::new(SshKeyStorage::empty());
    assert_eq!(client.is_connected(), false);
    assert!(client
        .connect(
            String::from("test.rebex.net"),
            22,
            Some(String::from("demo")),
            Some(String::from("password"))
        )
        .is_ok());
    // Check session and sftp
    assert_eq!(client.pwd().ok().unwrap(), String::from("/"));
    assert_eq!(client.is_connected(), true);
    // Disconnect
    assert!(client.disconnect().is_ok());
    assert_eq!(client.is_connected(), false);
}

#[test]
fn test_filetransfer_sftp_bad_auth() {
    let mut client: Client = Client::new(SshKeyStorage::empty());
    assert!(client
        .connect(
            String::from("test.rebex.net"),
            22,
            Some(String::from("demo")),
            Some(String::from("badpassword"))
        )
        .is_err());
}

#[test]
fn test_filetransfer_sftp_no_credentials() {
    let mut client: Client = Client::new(SshKeyStorage::empty());
    assert!(client
        .connect(String::from("test.rebex.net"), 22, None, None)
        .is_err());
}

#[test]
fn test_filetransfer_sftp_bad_server() {
    let mut client: Client = Client::new(SshKeyStorage::empty());
    assert!(client
        .connect(
            String::from("mybadserver.veryverybad.awful"),
            22,
            None,
            None
        )
        .is_err());
}

#[test]
fn test_filetransfer_sftp_pwd() {
    let mut client: Client = Client::new(SshKeyStorage::empty());
    assert!(client
        .connect(
            String::from("test.rebex.net"),
            22,
            Some(String::from("demo")),
            Some(String::from("password"))
        )
        .is_ok());
    // Pwd
    assert_eq!(String::from("/"), client.pwd().ok().unwrap());
    // Disconnect
    assert!(client.disconnect().is_ok());
}

#[test]
fn test_filetransfer_sftp_cwd() {
    let mut client: Client = Client::new(SshKeyStorage::empty());
    assert!(client
        .connect(
            String::from("test.rebex.net"),
            22,
            Some(String::from("demo")),
            Some(String::from("password"))
        )
        .is_ok());
    // Pwd
    assert_eq!(String::from("/"), client.pwd().ok().unwrap());
    // Cwd (relative)
    assert!(client.change_dir("pub/").is_ok());
    assert_eq!(client.pwd().ok().unwrap(), String::from("/pub"));
    // Cwd (absolute)
    assert!(client.change_dir("/").is_ok());
    assert_eq!(client.pwd().ok().unwrap(), String::from("/"));
    // Disconnect
    assert!(client.disconnect().is_ok());
}

#[test]
fn test_filetransfer_sftp_copy() {
    let mut client: Client = Client::new(SshKeyStorage::empty());
    assert!(client
        .connect(
            String::from("test.rebex.net"),
            22,
            Some(String::from("demo")),
            Some(String::from("password"))
        )
        .is_ok());
    // Copy
    let file: FsFile = FsFile {
        name: String::from("readme.txt"),
        abs_path: String::from("/readme.txt"),
        last_change_time: 0,
        last_access_time: 0,
        creation_time: 0,
        size: 0,
        ftype: Some(String::from("txt")), // File type
        readonly: true,
        symlink: None,             // UNIX only
        user: Some(0),             // UNIX only
        group: Some(0),            // UNIX only
        unix_pex: Some((6, 4, 4)), // UNIX only
    };
    assert!(client.copy(&FsEntry::File(file), "/tmp/dest.txt").is_err());
}

#[test]
fn test_filetransfer_sftp_cwd_error() {
    let mut client: Client = Client::new(SshKeyStorage::empty());
    assert!(client
        .connect(
            String::from("test.rebex.net"),
            22,
            Some(String::from("demo")),
            Some(String::from("password"))
        )
        .is_ok());
    // Cwd (abs)
    assert!(client.change_dir("/omar/gabber").is_err());
    // Cwd (rel)
    assert!(client.change_dir("gomar/pett").is_err());
    // Disconnect
    assert!(client.disconnect().is_ok());
    assert!(client.change_dir("gomar/pett").is_err());
}

#[test]
fn test_filetransfer_sftp_ls() {
    let mut client: Client = Client::new(SshKeyStorage::empty());
    assert!(client
        .connect(
            String::from("test.rebex.net"),
            22,
            Some(String::from("demo")),
            Some(String::from("password"))
        )
        .is_ok());
    // List dir
    let pwd: String = client.pwd().ok().unwrap();
    let files: Vec<FsEntry> = client.list_dir(pwd.as_str()).ok().unwrap();
    assert_eq!(files.len(), 3); // There are 3 files
                                // Disconnect
    assert!(client.disconnect().is_ok());
    // Verify err
    assert!(client.list_dir(pwd.as_str()).is_err());
}

#[test]
fn test_filetransfer_sftp_stat() {
    let mut client: Client = Client::new(SshKeyStorage::empty());
    assert!(client
        .connect(
            String::from("test.rebex.net"),
            22,
            Some(String::from("demo")),
            Some(String::from("password"))
        )
        .is_ok());
    let file: FsEntry = client.stat("readme.txt").ok().unwrap();
    if let FsEntry::File(file) = file {
        assert_eq!(file.abs_path, String::from("/readme.txt"));
    } else {
        panic!("Expected readme.txt to be a file");
    }
}

#[test]
fn test_filetransfer_sftp_exec() {
    let mut client: Client = Client::new(SshKeyStorage::empty());
    assert!(client
        .connect(
            String::from("test.rebex.net"),
            22,
            Some(String::from("demo")),
            Some(String::from("password"))
        )
        .is_ok());
    // Exec
    assert_eq!(client.exec("echo 5").ok().unwrap().as_str(), "5\n");
    // Disconnect
    assert!(client.disconnect().is_ok());
    // Verify err
    assert!(client.exec("echo 1").is_err());
}

#[test]
fn test_filetransfer_sftp_recv() {
    let mut client: Client = Client::new(SshKeyStorage::empty());
    assert!(client
        .connect(
            String::from("test.rebex.net"),
            22,
            Some(String::from("demo")),
            Some(String::from("password"))
        )
        .is_ok());
    let file: FsFile = FsFile {
        name: String::from("readme.txt"),
        abs_path: String::from("/readme.txt"),
        last_change_time: 0,
        last_access_time: 0,
        creation_time: 0,
        size: 0,
        ftype: Some(String::from("txt")), // File type
        readonly: true,
        symlink: None,             // UNIX only
        user: Some(0),             // UNIX only
        group: Some(0),            // UNIX only
        unix_pex: Some((6, 4, 4)), // UNIX only
    };
    // Receive file
    assert!(client.recv_file(&file).is_ok());
    // Disconnect
    assert!(client.disconnect().is_ok());
}

#[test]
fn test_filetransfer_sftp_recv_failed_nosuchfile() {
    let mut client: Client = Client::new(SshKeyStorage::empty());
    assert!(client
        .connect(
            String::from("test.rebex.net"),
            22,
            Some(String::from("demo")),
            Some(String::from("password"))
        )
        .is_ok());
    // Receive file
    let file: FsFile = FsFile {
        name: String::from("omar.txt"),
        abs_path: String::from("/omar.txt"),
        last_change_time: 0,
        last_access_time: 0,
        creation_time: 0,
        size: 0,
        ftype: Some(String::from("txt")), // File type
        readonly: true,
        symlink: None,             // UNIX only
        user: Some(0),             // UNIX only
        group: Some(0),            // UNIX only
        unix_pex: Some((6, 4, 4)), // UNIX only
    };
    assert!(client.recv_file(&file).is_err());
    // Disconnect
    assert!(client.disconnect().is_ok());
}

#[test]
fn test_filetransfer_sftp_uninitialized() {
    let file: FsFile = FsFile {
        name: String::from("omar.txt"),
        abs_path: String::from("/omar.txt"),
        last_change_time: 0,
        last_access_time: 0,
        creation_time: 0,
        size: 0,
        ftype: Some(String::from("txt")), // File type
        readonly: true,
        symlink: None,             // UNIX only
        user: Some(0),             // UNIX only
        group: Some(0),            // UNIX only
        unix_pex: Some((6, 4, 4)), // UNIX only
    };
    let mut sftp: Client = Client::new(SshKeyStorage::empty());
    assert!(sftp.change_dir("/tmp").is_err());
    assert!(sftp.disconnect().is_err());
    assert!(sftp.list_dir("/tmp").is_err());
    assert!(sftp.mkdir("/tmp").is_err());
    assert!(sftp.pwd().is_err());
    assert!(sftp.stat("/tmp").is_err());
    assert!(sftp.recv_file(&file).is_err());
    assert!(sftp.send_file(&file, "/tmp/omar.txt").is_err());
}

#[test]
fn an_unconnected_backend_refuses_with_one_kind() {
    let mut sftp: SftpFileTransfer = SftpFileTransfer::new(SshKeyStorage::empty());
    let kind = FileTransferErrorType::UninitializedSession;
    let entry = FsEntry::File(omar());
    assert_eq!(sftp.change_dir("/tmp").err().unwrap().kind(), kind);
    assert_eq!(
        sftp.change_dir_reply("/tmp", Canonical::Found(String::from("/tmp")))
            .err()
            .unwrap()
            .kind(),
        kind
    );
    assert_eq!(sftp.disconnect().err().unwrap().kind(), kind);
    assert_eq!(sftp.disconnect_reply(Ok(())).err().unwrap().kind(), kind);
    assert_eq!(sftp.list_dir("/tmp").err().unwrap().kind(), kind);
    assert_eq!(sftp.list_dir_reply(Ok(Vec::new()), &Vec::new()).err().unwrap().kind(), kind);
    assert_eq!(sftp.mkdir("/tmp", None).err().unwrap().kind(), kind);
    assert_eq!(sftp.mkdir_reply(Ok(())).err().unwrap().kind(), kind);
    assert_eq!(sftp.pwd().err().unwrap().kind(), kind);
    assert_eq!(sftp.rename(&entry, "/a", None).err().unwrap().kind(), kind);
    assert_eq!(sftp.rename_reply(Ok(())).err().unwrap().kind(), kind);
    assert_eq!(sftp.stat("/tmp").err().unwrap().kind(), kind);
    assert_eq!(sftp.stat_reply("/tmp", Ok(regular(1)), None).err().unwrap().kind(), kind);
    assert_eq!(sftp.exec("ls").err().unwrap().kind(), kind);
    assert_eq!(
        sftp.exec_reply("ls", ShellReply::Output(String::new())).err().unwrap().kind(),
        kind
    );
    assert_eq!(sftp.send_file(&omar(), "/a", None).err().unwrap().kind(), kind);
    assert_eq!(sftp.send_file_reply(Ok(())).err().unwrap().kind(), kind);
    assert_eq!(sftp.recv_file(&omar()).err().unwrap().kind(), kind);
    assert_eq!(sftp.recv_file_reply(Ok(())).err().unwrap().kind(), kind);
    assert_eq!(
        sftp.get_remote_path("/a", Canonical::Found(String::from("/a"))).err().unwrap().kind(),
        kind
    );
    let step = sftp.remove(&entry);
    assert!(step.next.is_none());
    assert_eq!(step.action, RemoveAction::Finish(Err(FileTransferError::new(kind))));
    assert_eq!(
        sftp.copy(&entry, "/a").err().unwrap().kind(),
        FileTransferErrorType::UnsupportedFeature
    );
}

#[test]
fn entries_are_made_of_what_the_subsystem_tells() {
    match make_fsentry("/pub/Photo.JPG", &regular(7), None) {
        FsEntry::File(f) => {
            assert_eq!(f.name, "Photo.JPG");
            assert_eq!(f.ftype.as_deref(), Some("jpg"));
            assert_eq!(f.size, 7);
        }
        FsEntry::Directory(_) => panic!("a regular file is no directory"),
    }
    match make_fsentry("/pub/", &directory(), None) {
        FsEntry::Directory(d) => {
            assert_eq!(d.name, "pub");
            assert_eq!(d.abs_path, "/pub/");
            assert_eq!(d.unix_pex, Some((7, 5, 5)));
        }
        FsEntry::File(_) => panic!("a directory is no file"),
    }
    let nothing = FileStat { size: None, uid: None, gid: None, perm: None, atime: None, mtime: None };
    match make_fsentry("/", &nothing, Some(file_at("/x"))) {
        FsEntry::File(f) => {
            assert_eq!(f.name, "");
            assert_eq!(f.size, 0);
            assert_eq!(f.unix_pex, None);
            assert_eq!(f.user, None);
            assert_eq!(f.last_change_time, 0);
            assert_eq!(f.symlink, None);
            assert_eq!(f.ftype, None);
        }
        FsEntry::Directory(_) => panic!("without a mode nothing is a directory"),
    }
}

#[test]
fn links_take_what_was_looked_up() {
    assert!(is_symlink(&symlink()));
    assert!(!is_symlink(&regular(1)));
    assert!(!is_symlink(&directory()));
    let client = demo_client();
    let listed = vec![
        RemoteFile { path: String::from("/a"), stat: symlink() },
        RemoteFile { path: String::from("/b"), stat: regular(1) },
        RemoteFile { path: String::from("/c"), stat: symlink() },
        RemoteFile { path: String::from("/d"), stat: symlink() },
    ];
    assert_eq!(
        client.list_dir_links(&listed),
        vec![String::from("/a"), String::from("/c"), String::from("/d")]
    );
    let links = vec![Some(file_at("/x/a")), None];
    let entries = client.list_dir_reply(Ok(listed), &links).ok().unwrap();
    assert_eq!(entries.len(), 4);
    match &entries[0] {
        FsEntry::File(f) => assert_eq!(f.symlink, Some(Box::new(file_at("/x/a")))),
        FsEntry::Directory(_) => panic!("a link is listed as a file"),
    }
    match &entries[1] {
        FsEntry::File(f) => assert_eq!(f.symlink, None),
        FsEntry::Directory(_) => panic!("a file is listed as a file"),
    }
    match &entries[2] {
        FsEntry::File(f) => assert_eq!(f.symlink, None),
        FsEntry::Directory(_) => panic!("a link is listed as a file"),
    }
    match &entries[3] {
        FsEntry::File(f) => assert_eq!(f.symlink, None),
        FsEntry::Directory(_) => panic!("a link is listed as a file"),
    }
}

#[test]
fn a_directory_that_cannot_be_read() {
    let client = demo_client();
    let err = client.list_dir_reply(Err(String::from("denied")), &Vec::new()).err().unwrap();
    assert_eq!(err.message(), "Could not stat directory (denied)");
    let err = client.stat_reply("/x", Err(String::from("gone")), None).err().unwrap();
    assert_eq!(err.message(), "No such file or directory (gone)");
}

#[test]
fn paths_are_made_absolute() {
    let mut client = demo_client();
    assert!(client.change_dir_reply("home", Canonical::Found(String::from("/home"))).is_ok());
    assert_eq!(client.abs_path_query("/etc/x"), None);
    assert_eq!(client.abs_path_query("a/../b").as_deref(), Some("/home/a/../b"));
    assert_eq!(client.get_abs_path("/etc/x", Some(String::from("/other"))), "/etc/x");
    assert_eq!(client.get_abs_path("a/../b", Some(String::from("/home/b"))), "/home/b");
    assert_eq!(client.get_abs_path("a/../b", None), "/home/a/../b");
    assert_eq!(
        client.mkdir("new", None).ok().unwrap(),
        SftpMkdir { path: String::from("/home/new"), mode: 0o775 }
    );
    let err = client.mkdir_reply(Err(String::from("exists"))).err().unwrap();
    assert_eq!(err.message(), "Failed to create file (exists)");
    assert_eq!(
        client.rename(&file_at("/home/a"), "b", Some(String::from("/home/b"))).ok().unwrap(),
        SftpRename { src: String::from("/home/a"), dst: String::from("/home/b") }
    );
    let err = client.rename_reply(Err(String::from("denied"))).err().unwrap();
    assert_eq!(err.kind(), FileTransferErrorType::FileCreateDenied);
    let mut file = omar();
    file.unix_pex = Some((7, 0, 1));
    assert_eq!(
        client.send_file(&file, "up.bin", None).ok().unwrap(),
        SftpSend {
            path: String::from("/home/up.bin"),
            mode: 0o701,
            write: true,
            create: true,
            append: true,
            truncate: true,
        }
    );
    let err = client.send_file_reply(Err(String::from("quota"))).err().unwrap();
    assert_eq!(err.message(), "Failed to create file (quota)");
    assert!(client.on_sent().is_ok());
}

// Runs a removal against a tree that is given as the listing of each of its
// directories; `refuse` names a path that cannot be removed. Gives the calls
// that were made, and how the removal ended.
fn run_removal(
    client: &SftpFileTransfer,
    entry: &FsEntry,
    tree: &[(&str, Vec<FsEntry>)],
    refuse: Option<&str>,
) -> (Vec<String>, Result<(), FileTransferError>) {
    let mut calls: Vec<String> = Vec::new();
    let mut step: RemoveStep = client.remove(entry);
    loop {
        let reply = match step.action {
            RemoveAction::Finish(result) => {
                assert!(step.next.is_none());
                return (calls, result);
            }
            RemoveAction::List { path } => {
                calls.push(format!("ls {}", path));
                match tree.iter().find(|(dir, _)| *dir == path) {
                    Some((_, entries)) => RemoveReply::Listed(entries.clone()),
                    None => RemoveReply::ListFailed(FileTransferError::new_ex(
                        FileTransferErrorType::DirStatFailed,
                        String::from("denied"),
                    )),
                }
            }
            RemoveAction::Unlink { path } => {
                calls.push(format!("rm {}", path));
                if refuse == Some(path.as_str()) {
                    RemoveReply::Failed { detail: String::from("denied") }
                } else {
                    RemoveReply::Done
                }
            }
            RemoveAction::Rmdir { path } => {
                calls.push(format!("rmdir {}", path));
                if refuse == Some(path.as_str()) {
                    RemoveReply::Failed { detail: String::from("denied") }
                } else {
                    RemoveReply::Done
                }
            }
        };
        step = client.remove_reply(step.next.unwrap(), reply);
    }
}

fn tree() -> Vec<(&'static str, Vec<FsEntry>)> {
    vec![
        ("/d", vec![file_at("/d/a"), dir_at("/d/sub"), file_at("/d/z")]),
        ("/d/sub", vec![file_at("/d/sub/b"), dir_at("/d/sub/empty")]),
        ("/d/sub/empty", vec![]),
    ]
}

#[test]
fn a_file_is_removed_right_away() {
    let client = demo_client();
    let (calls, result) = run_removal(&client, &file_at("/d/a"), &[], None);
    assert_eq!(calls, vec!["rm /d/a"]);
    assert_eq!(result, Ok(()));
    let (calls, result) = run_removal(&client, &file_at("/d/a"), &[], Some("/d/a"));
    assert_eq!(calls, vec!["rm /d/a"]);
    assert_eq!(result.err().unwrap().message(), "Not enough permissions (denied)");
}

#[test]
fn a_directory_goes_after_all_that_is_in_it() {
    let client = demo_client();
    let (calls, result) = run_removal(&client, &dir_at("/d"), &tree(), None);
    assert_eq!(
        calls,
        vec![
            "ls /d",
            "rm /d/a",
            "ls /d/sub",
            "rm /d/sub/b",
            "ls /d/sub/empty",
            "rmdir /d/sub/empty",
            "rmdir /d/sub",
            "rm /d/z",
            "rmdir /d",
        ]
    );
    assert_eq!(result, Ok(()));
}

#[test]
fn a_failure_leaves_the_directories_above_it() {
    let client = demo_client();
    let (calls, result) = run_removal(&client, &dir_at("/d"), &tree(), Some("/d/sub/b"));
    assert_eq!(calls, vec!["ls /d", "rm /d/a", "ls /d/sub", "rm /d/sub/b"]);
    assert_eq!(result.err().unwrap().kind(), FileTransferErrorType::PexError);
    let (calls, result) = run_removal(&client, &dir_at("/d"), &tree(), Some("/d/sub/empty"));
    assert_eq!(
        calls,
        vec!["ls /d", "rm /d/a", "ls /d/sub", "rm /d/sub/b", "ls /d/sub/empty", "rmdir /d/sub/empty"]
    );
    assert!(result.is_err());
    let (calls, result) = run_removal(&client, &dir_at("/nowhere"), &tree(), None);
    assert_eq!(calls, vec!["ls /nowhere"]);
    assert_eq!(result.err().unwrap().message(), "Could not stat directory (denied)");
}

#[test]
fn a_reply_out_of_turn_ends_the_removal() {
    let client = demo_client();
    let step = client.remove(&dir_at("/d"));
    let removal = step.next.unwrap();
    assert_eq!(removal.awaiting, Awaiting::Listing);
    let step = client.remove_reply(removal, RemoveReply::Done);
    assert!(step.next.is_none());
    assert_eq!(
        step.action,
        RemoveAction::Finish(Err(FileTransferError::new(FileTransferErrorType::ProtocolError)))
    );
}

#[test]
fn no_address_answers() {
    let mut client: SftpFileTransfer = SftpFileTransfer::new(SshKeyStorage::empty());
    client.connect(String::from("test.rebex.net"), 22, None, None);
    assert_eq!(
        client.connect_reply(ConnectReply::Resolved { candidates: 2 }),
        ConnectAction::Dial { candidate: 0, timeout_secs: 30 }
    );
    assert_eq!(
        client.connect_reply(ConnectReply::Failed { detail: String::from("refused") }),
        ConnectAction::Dial { candidate: 1, timeout_secs: 30 }
    );
    let timeout = ConnectAction::Abandon(FileTransferError::new_ex(
        FileTransferErrorType::ConnectionError,
        String::from("Connection timeout"),
    ));
    assert_eq!(
        client.connect_reply(ConnectReply::Failed { detail: String::from("refused") }),
        timeout
    );
    assert!(!client.is_connected());
    client.connect(String::from("test.rebex.net"), 22, None, None);
    assert_eq!(client.connect_reply(ConnectReply::Resolved { candidates: 0 }), timeout);
}

#[test]
fn each_step_of_connecting_can_fail() {
    let mut client: SftpFileTransfer = SftpFileTransfer::new(SshKeyStorage::empty());
    let fail = || ConnectReply::Failed { detail: String::from("why") };
    let abandon = |kind| ConnectAction::Abandon(FileTransferError::new_ex(kind, String::from("why")));
    client.connect(String::from("h"), 22, None, None);
    assert_eq!(client.connect_reply(fail()), abandon(FileTransferErrorType::BadAddress));
    client.connect(String::from("h"), 22, None, None);
    client.connect_reply(ConnectReply::Resolved { candidates: 1 });
    client.connect_reply(ConnectReply::Succeeded);
    assert_eq!(client.connect_reply(fail()), abandon(FileTransferErrorType::ConnectionError));
    client.connect(String::from("h"), 22, None, None);
    client.connect_reply(ConnectReply::Resolved { candidates: 1 });
    client.connect_reply(ConnectReply::Succeeded);
    assert_eq!(
        client.connect_reply(ConnectReply::Succeeded),
        ConnectAction::Authenticate {
            credentials: Credentials {
                username: String::new(),
                method: AuthMethod::Password { password: String::new() },
            },
        }
    );
    assert_eq!(client.connect_reply(fail()), abandon(FileTransferErrorType::AuthenticationFailed));
    client.connect(String::from("h"), 22, None, None);
    client.connect_reply(ConnectReply::Resolved { candidates: 1 });
    client.connect_reply(ConnectReply::Succeeded);
    client.connect_reply(ConnectReply::Succeeded);
    assert_eq!(
        client.connect_reply(ConnectReply::Authenticated { banner: None }),
        ConnectAction::OpenSftp
    );
    assert_eq!(client.connect_reply(fail()), abandon(FileTransferErrorType::ProtocolError));
    client.connect(String::from("h"), 22, None, None);
    client.connect_reply(ConnectReply::Resolved { candidates: 1 });
    client.connect_reply(ConnectReply::Succeeded);
    client.connect_reply(ConnectReply::Succeeded);
    client.connect_reply(ConnectReply::Authenticated { banner: None });
    client.connect_reply(ConnectReply::Succeeded);
    assert_eq!(client.connect_reply(fail()), abandon(FileTransferErrorType::ProtocolError));
    assert!(!client.is_connected());
    assert_eq!(
        client.connect_reply(ConnectReply::Succeeded),
        ConnectAction::Abandon(FileTransferError::new(FileTransferErrorType::UninitializedSession))
    );
    client.connect(String::from("h"), 22, None, None);
    assert_eq!(
        client.connect_reply(ConnectReply::Path(String::from("/"))),
        ConnectAction::Abandon(FileTransferError::new(FileTransferErrorType::ProtocolError))
    );
}

#[test]
fn directories_do_not_confuse_kinds() {
    let d = FsEntry::Directory(FsDirectory {
        name: String::from("d"),
        abs_path: String::from("/d"),
        last_change_time: 1500000000,
        last_access_time: 1600000000,
        creation_time: 0,
        readonly: false,
        symlink: None,
        user: Some(1000),
        group: Some(100),
        unix_pex: Some((7, 5, 5)),
    });
    assert_eq!(dir_at("/d"), d);
}

#[test]
fn a_failed_attempt_leaves_the_subsystem_connected() {
    let mut client = demo_client();
    assert!(client.is_connected());
    // The server refuses the login of the next attempt.
    let refused = connect_to_demo_server(
        &mut client,
        "test.rebex.net",
        Some(String::from("demo")),
        Some(String::from("badpassword")),
    );
    assert_eq!(refused.err().unwrap().kind(), FileTransferErrorType::AuthenticationFailed);
    assert!(client.is_connected());
    assert_eq!(client.pwd().ok().unwrap(), "/");
    // The address of the attempt after it names no host.
    assert!(connect_to_demo_server(&mut client, "mybadserver.veryverybad.awful", None, None)
        .is_err());
    assert!(client.is_connected());
    // While an attempt is under way the connection stands too.
    client.connect(String::from("test.rebex.net"), 22, None, None);
    assert!(client.is_connected());
    client.connect_reply(ConnectReply::Resolved { candidates: 0 });
    assert!(client.is_connected());
    assert!(client.disconnect_reply(Ok(())).is_ok());
    assert!(!client.is_connected());
    // Once disconnected, a failed attempt leaves the backend disconnected.
    assert!(connect_to_demo_server(&mut client, "mybadserver.veryverybad.awful", None, None)
        .is_err());
    assert!(!client.is_connected());
    assert!(client.pwd().is_err());
}

#[test]
fn a_link_is_looked_up_unless_it_is_named_as_its_target() {
    let read = |target: &str| Ok(String::from(target));
    assert_eq!(link_to_look_up("/a/link", read("/b/target")).as_deref(), Some("/b/target"));
    assert_eq!(link_to_look_up("/a/link", read("target")).as_deref(), Some("target"));
    assert_eq!(link_to_look_up("/a/name", read("/b/name")), None);
    assert_eq!(link_to_look_up("/a/name", read("name")), None);
    assert_eq!(link_to_look_up("/a/name/", read("/b//name//")), None);
    assert_eq!(link_to_look_up("/a/name", read("/b/name2")).as_deref(), Some("/b/name2"));
    assert_eq!(link_to_look_up("/a/link", read("/")).as_deref(), Some("/"));
    assert_eq!(link_to_look_up("/", read("/")), None);
    assert_eq!(link_to_look_up("/a/link", Err(String::from("denied"))), None);
}
