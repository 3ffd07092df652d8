//! File transfer over the file transfer subsystem of a secure shell. The
//! backend says which call of the subsystem to make; the caller makes it
//! and reports what came back.

use vstd::prelude::*;
use vstd::string::StringExecFns;
use crate::filetransfer::connect::{
    advance, begin, credentials, is_credentials, text_or_empty, Attempt, ConnectAction,
    ConnectReply,
};
use crate::filetransfer::listing::{boxed, lowered_extension};
use crate::filetransfer::pex::{file_mode, mode_of, mode_pex, pex_of_mode};
use crate::filetransfer::removal::{
    finished, remove_reply, removal_step, start, started, Removal, RemovalView, RemoveAction,
    RemoveReply, RemoveReplyView, RemoveStep, RemoveStepView,
};
use crate::filetransfer::shell::{
    in_directory, shell_result, text_result_view, unit_result_view, wrap, ShellReply,
    ShellReplyView,
};
use crate::filetransfer::{
    detailed_error, disconnect_outcome, exec_outcome, guarded, plain_error, FileTransfer,
    FileTransferError, FileTransferErrorType, FileTransferErrorView,
};
use crate::fs::{
    entries_view, optional_entry_view, text_view, FsDirectory, FsDirectoryView, FsEntry,
    FsEntryView, FsFile, FsFileView,
};
use crate::system::sshkey_storage::{lookup, SshKeyStorage};
use crate::utils::path::{
    absolute, extension_of, file_name, file_name_or_empty, final_component, is_absolute, join,
    join_paths,
};
use crate::utils::text::{chars_of, lower_all, same, string_of, strings_view};

verus! {

/// The mode that directories are made with.
pub const MKDIR_MODE: i32 = 0o775;

/// What the subsystem tells of a file. Any of it may be missing.
#[derive(Clone, Copy, Debug, PartialEq, Eq)]
pub struct FileStat {
    pub size: Option<u64>,
    pub uid: Option<u32>,
    pub gid: Option<u32>,
    /// The mode word: the kind of the file and its permissions.
    pub perm: Option<u32>,
    pub atime: Option<u64>,
    pub mtime: Option<u64>,
}

/// The bits of a mode word that say what kind of file it is; those of 0
/// where there is no mode word.
pub open spec fn file_format(perm: Option<u32>) -> u32 {
    match perm {
        Some(p) => p & 0o170000,
        None => 0,
    }
}

/// Whether a mode word is that of a directory.
pub open spec fn is_dir_mode(perm: Option<u32>) -> bool {
    file_format(perm) == 0o040000
}

/// Whether a mode word is that of a symbolic link.
pub open spec fn is_symlink_mode(perm: Option<u32>) -> bool {
    file_format(perm) == 0o120000
}

/// `ssh2::FileStat::is_dir`: whether the kind bits of the mode word are
/// those of a directory. Without a mode word the answer is no.
#[verifier::external_body]
fn stat_is_dir(stat: &FileStat) -> (r: bool)
    ensures
        r == is_dir_mode(stat.perm),
{
    let meta = ssh2::FileStat {
        size: stat.size,
        uid: stat.uid,
        gid: stat.gid,
        perm: stat.perm,
        atime: stat.atime,
        mtime: stat.mtime,
    };
    meta.is_dir()
}

/// `ssh2::FileType::is_symlink` of `ssh2::FileStat::file_type`: whether the
/// kind bits of the mode word are those of a symbolic link. Without a mode
/// word the answer is no.
#[verifier::external_body]
fn stat_is_symlink(stat: &FileStat) -> (r: bool)
    ensures
        r == is_symlink_mode(stat.perm),
{
    let meta = ssh2::FileStat {
        size: stat.size,
        uid: stat.uid,
        gid: stat.gid,
        perm: stat.perm,
        atime: stat.atime,
        mtime: stat.mtime,
    };
    meta.file_type().is_symlink()
}

/// A number that may be missing, 0 where it is.
pub open spec fn known(n: Option<u64>) -> u64 {
    match n {
        Some(n) => n,
        None => 0,
    }
}

/// The permissions in a mode word that may be missing.
pub open spec fn known_pex(perm: Option<u32>) -> Option<(u8, u8, u8)> {
    match perm {
        Some(p) => Some(pex_of_mode(p)),
        None => None,
    }
}

/// The entry at `path` of which the subsystem told `stat`. `link` is what a
/// symbolic link points to, where `link_to_look_up` asked for it and it
/// could be found; it is left out for what is no symbolic link.
///
/// The name is the final component of the path, empty where it has none.
/// The kind bits of the mode word decide between directory and file. Owner,
/// group and permissions are those told; size and times are 0 where they
/// were not told. The time of creation is never told.
pub open spec fn fsentry_of(path: Seq<char>, stat: FileStat, link: Option<FsEntryView>) -> FsEntryView {
    let symlink = if is_symlink_mode(stat.perm) {
        boxed(link)
    } else {
        None
    };
    if is_dir_mode(stat.perm) {
        FsEntryView::Directory(
            FsDirectoryView {
                name: file_name_or_empty(path),
                abs_path: path,
                last_change_time: known(stat.mtime),
                last_access_time: known(stat.atime),
                creation_time: 0,
                readonly: false,
                symlink,
                user: stat.uid,
                group: stat.gid,
                unix_pex: known_pex(stat.perm),
            },
        )
    } else {
        FsEntryView::File(
            FsFileView {
                name: file_name_or_empty(path),
                abs_path: path,
                last_change_time: known(stat.mtime),
                last_access_time: known(stat.atime),
                creation_time: 0,
                size: known(stat.size) as usize,
                ftype: lowered_extension(path),
                readonly: false,
                symlink,
                user: stat.uid,
                group: stat.gid,
                unix_pex: known_pex(stat.perm),
            },
        )
    }
}

/// What of a symbolic link is to be looked up: the target that reading the
/// link gave, unless its final component is the link's own name. A link
/// that could not be read has nothing to look up.
pub open spec fn link_lookup(path: Seq<char>, read: Result<String, String>) -> Option<Seq<char>> {
    match read {
        Ok(target) => if file_name_or_empty(target@) != file_name_or_empty(path) {
            Some(target@)
        } else {
            None
        },
        Err(_) => None,
    }
}

/// Says what is to be looked up for the symbolic link at `path`, given
/// what reading the link came to: its target, unless that is named as the
/// link itself is. The target is looked up once, as any entry is, but
/// that what it points to in turn is not followed: its entry is made with
/// no link.
pub fn link_to_look_up(path: &str, read: Result<String, String>) -> (r: Option<String>)
    ensures
        text_view(r) == link_lookup(path@, read),
{
    match read {
        Ok(target) => {
            let own: Vec<char> = match final_component(&chars_of(path)) {
                Some(name) => name,
                None => Vec::new(),
            };
            let pointed: Vec<char> = match final_component(&chars_of(target.as_str())) {
                Some(name) => name,
                None => Vec::new(),
            };
            if same(&pointed, &own) {
                None
            } else {
                Some(target)
            }
        },
        Err(_) => None,
    }
}

/// Tells whether `stat` is that of a symbolic link, which is to be read
/// before its entry is made; see `link_to_look_up`.
pub fn is_symlink(stat: &FileStat) -> (r: bool)
    ensures
        r == is_symlink_mode(stat.perm),
{
    stat_is_symlink(stat)
}

/// Makes the entry at `path` of which the subsystem told `stat`; see
/// `fsentry_of`.
pub fn make_fsentry(path: &str, stat: &FileStat, link: Option<FsEntry>) -> (r: FsEntry)
    ensures
        r@ == fsentry_of(path@, *stat, optional_entry_view(link)),
        file_name(path@) is Some ==> r@.named_by_path(),
{
    let p = chars_of(path);
    let name: String = match final_component(&p) {
        Some(n) => string_of(&n),
        None => String::new(),
    };
    let pex: Option<(u8, u8, u8)> = match stat.perm {
        Some(mode) => Some(mode_pex(mode)),
        None => None,
    };
    let atime: u64 = match stat.atime {
        Some(t) => t,
        None => 0,
    };
    let mtime: u64 = match stat.mtime {
        Some(t) => t,
        None => 0,
    };
    let symlink: Option<Box<FsEntry>> = if stat_is_symlink(stat) {
        match link {
            Some(e) => Some(Box::new(e)),
            None => None,
        }
    } else {
        None
    };
    if stat_is_dir(stat) {
        FsEntry::Directory(
            FsDirectory {
                name,
                abs_path: path.to_owned(),
                last_change_time: mtime,
                last_access_time: atime,
                creation_time: 0,
                readonly: false,
                symlink,
                user: stat.uid,
                group: stat.gid,
                unix_pex: pex,
            },
        )
    } else {
        let size: u64 = match stat.size {
            Some(n) => n,
            None => 0,
        };
        let ftype: Option<String> = match extension_of(&p) {
            Some(e) => Some(string_of(&lower_all(&e))),
            None => None,
        };
        FsEntry::File(
            FsFile {
                name,
                abs_path: path.to_owned(),
                last_change_time: mtime,
                last_access_time: atime,
                creation_time: 0,
                size: #[verifier::truncate]
                (size as usize),
                ftype,
                readonly: false,
                symlink,
                user: stat.uid,
                group: stat.gid,
                unix_pex: pex,
            },
        )
    }
}

/// What asking the subsystem for a path came to.
#[derive(Debug, PartialEq, Eq)]
pub enum Canonical {
    /// The subsystem gave the canonical path, and something is there.
    Found(String),
    /// The subsystem gave a canonical path, but nothing could be found
    /// there; the transport's message.
    Missing { detail: String },
    /// The subsystem gave no canonical path; the transport's message.
    Unknown { detail: String },
}

/// The path to ask the subsystem about for `p`: `p` itself where it is
/// absolute, else `p` below the working directory.
pub open spec fn path_from(cwd: Seq<char>, p: Seq<char>) -> Seq<char> {
    if is_absolute(p) {
        p
    } else {
        join(cwd, p)
    }
}

/// The canonical path of something that is there, or why there is none:
/// always a `NoSuchFileOrDirectory`, with the transport's message but where
/// an absolute path could not be made canonical.
pub open spec fn remote_path(p: Seq<char>, found: Canonical) -> Result<
    Seq<char>,
    FileTransferErrorView,
> {
    match found {
        Canonical::Found(path) => Ok(path@),
        Canonical::Missing { detail } => Err(
            detailed_error(FileTransferErrorType::NoSuchFileOrDirectory, detail@),
        ),
        Canonical::Unknown { detail } => if is_absolute(p) {
            Err(plain_error(FileTransferErrorType::NoSuchFileOrDirectory))
        } else {
            Err(detailed_error(FileTransferErrorType::NoSuchFileOrDirectory, detail@))
        },
    }
}

/// The best absolute path that can be had for `p` without knowing that
/// anything is there: `p` itself where it is absolute; else the canonical
/// form of `p` below the working directory, or, where the subsystem gave
/// none, just `p` below the working directory.
pub open spec fn abs_path(cwd: Seq<char>, p: Seq<char>, canonical: Option<Seq<char>>) -> Seq<char> {
    if is_absolute(p) {
        p
    } else {
        match canonical {
            Some(c) => c,
            None => join(cwd, p),
        }
    }
}

/// What a call of the subsystem that gives nothing back came to: done, or a
/// failure of the kind `denied` with the transport's message.
pub open spec fn call_outcome(reply: Result<(), String>, denied: FileTransferErrorType) -> Result<
    (),
    FileTransferErrorView,
> {
    match reply {
        Ok(_) => Ok(()),
        Err(detail) => Err(detailed_error(denied, detail@)),
    }
}

/// A file as the subsystem lists it: its path, and what it tells of it.
#[derive(Debug, PartialEq, Eq)]
pub struct RemoteFile {
    pub path: String,
    pub stat: FileStat,
}

/// The paths of the symbolic links among `files`, in their order.
pub open spec fn link_paths(files: Seq<RemoteFile>) -> Seq<Seq<char>>
    decreases files.len(),
{
    if files.len() == 0 {
        Seq::empty()
    } else {
        let rest = link_paths(files.drop_first());
        if is_symlink_mode(files[0].stat.perm) {
            seq![files[0].path@] + rest
        } else {
            rest
        }
    }
}

/// The entries of `files`, in their order. Each symbolic link takes the
/// next of `links`, as long as there is one.
pub open spec fn entries_of(files: Seq<RemoteFile>, links: Seq<Option<FsEntryView>>) -> Seq<
    FsEntryView,
>
    decreases files.len(),
{
    if files.len() == 0 {
        Seq::empty()
    } else {
        let takes = is_symlink_mode(files[0].stat.perm) && links.len() > 0;
        let link = if takes {
            links[0]
        } else {
            None
        };
        let left = if takes {
            links.drop_first()
        } else {
            links
        };
        seq![fsentry_of(files[0].path@, files[0].stat, link)] + entries_of(
            files.drop_first(),
            left,
        )
    }
}

/// What looked-up links hold.
pub open spec fn links_view(links: Seq<Option<FsEntry>>) -> Seq<Option<FsEntryView>> {
    links.map_values(|l: Option<FsEntry>| optional_entry_view(l))
}

/// What opening a file to write takes: the path, the mode to make it with,
/// and how to open it.
#[derive(Debug, PartialEq, Eq)]
pub struct SftpSend {
    pub path: String,
    pub mode: i32,
    pub write: bool,
    pub create: bool,
    pub append: bool,
    pub truncate: bool,
}

/// What making a directory takes: the path and the mode to make it with.
#[derive(Debug, PartialEq, Eq)]
pub struct SftpMkdir {
    pub path: String,
    pub mode: i32,
}

/// What renaming takes: the path to move, and where to.
#[derive(Debug, PartialEq, Eq)]
pub struct SftpRename {
    pub src: String,
    pub dst: String,
}

/// A backend that transfers files over the file transfer subsystem.
#[derive(Debug)]
pub struct SftpFileTransfer {
    connected: bool,
    attempt: Option<Attempt>,
    wrkdir: String,
    key_storage: SshKeyStorage,
}

impl SftpFileTransfer {
    /// The private keys that the backend knows.
    pub closed spec fn keys(&self) -> SshKeyStorage {
        self.key_storage
    }

    /// What the reply to a call that gives nothing back comes to.
    pub open spec fn called(&self, reply: Result<(), String>, denied: FileTransferErrorType) -> Result<
        (),
        FileTransferErrorView,
    > {
        if self.connected() {
            call_outcome(reply, denied)
        } else {
            Err(plain_error(FileTransferErrorType::UninitializedSession))
        }
    }

    /// A backend that is not connected and knows the keys of `key_storage`.
    pub fn new(key_storage: SshKeyStorage) -> (r: SftpFileTransfer)
        ensures
            !r.connected(),
            r.attempt() is None,
            r.cwd() == "~"@,
            r.keys() == key_storage,
    {
        SftpFileTransfer {
            connected: false,
            attempt: None,
            wrkdir: String::from_str("~"),
            key_storage,
        }
    }

    /// Reads the reply to a call that gives nothing back.
    fn read_call(&self, reply: Result<(), String>, denied: FileTransferErrorType) -> (r: Result<
        (),
        FileTransferError,
    >)
        ensures
            unit_result_view(r) == self.called(reply, denied),
    {
        if !self.connected {
            return Err(FileTransferError::new(FileTransferErrorType::UninitializedSession));
        }
        match reply {
            Ok(_) => Ok(()),
            Err(detail) => Err(FileTransferError::new_ex(denied, detail)),
        }
    }

    /// The path to ask the subsystem about, to learn the canonical path of
    /// `p` and whether anything is there.
    pub fn remote_path_query(&self, p: &str) -> (r: Result<String, FileTransferError>)
        ensures
            text_result_view(r) == guarded(self.connected(), path_from(self.cwd(), p@)),
    {
        if !self.connected {
            return Err(FileTransferError::new(FileTransferErrorType::UninitializedSession));
        }
        let path = chars_of(p);
        if absolute(&path) {
            Ok(p.to_owned())
        } else {
            Ok(string_of(&join_paths(&chars_of(self.wrkdir.as_str()), &path)))
        }
    }

    /// What asking about `p` came to.
    pub open spec fn remote_path_outcome(&self, p: Seq<char>, found: Canonical) -> Result<
        Seq<char>,
        FileTransferErrorView,
    > {
        if self.connected() {
            remote_path(p, found)
        } else {
            Err(plain_error(FileTransferErrorType::UninitializedSession))
        }
    }

    /// The canonical path of `p`, where the subsystem gave one and something
    /// is there; else a `NoSuchFileOrDirectory`.
    pub fn get_remote_path(&self, p: &str, found: Canonical) -> (r: Result<
        String,
        FileTransferError,
    >)
        ensures
            text_result_view(r) == self.remote_path_outcome(p@, found),
    {
        if !self.connected {
            return Err(FileTransferError::new(FileTransferErrorType::UninitializedSession));
        }
        match found {
            Canonical::Found(path) => Ok(path),
            Canonical::Missing { detail } => Err(
                FileTransferError::new_ex(FileTransferErrorType::NoSuchFileOrDirectory, detail),
            ),
            Canonical::Unknown { detail } => if absolute(&chars_of(p)) {
                Err(FileTransferError::new(FileTransferErrorType::NoSuchFileOrDirectory))
            } else {
                Err(
                    FileTransferError::new_ex(
                        FileTransferErrorType::NoSuchFileOrDirectory,
                        detail,
                    ),
                )
            },
        }
    }

    /// The path to ask the subsystem to make canonical, to get the best
    /// absolute path for `p`; none for an absolute `p`, which is taken as it
    /// is.
    pub fn abs_path_query(&self, p: &str) -> (r: Option<String>)
        ensures
            text_view(r) == (if is_absolute(p@) {
                None
            } else {
                Some(join(self.cwd(), p@))
            }),
    {
        let path = chars_of(p);
        if absolute(&path) {
            None
        } else {
            Some(string_of(&join_paths(&chars_of(self.wrkdir.as_str()), &path)))
        }
    }

    /// The best absolute path for `p`, which may name nothing yet.
    /// `canonical` is what the subsystem made of the path of
    /// `abs_path_query`, where it made anything of it.
    pub fn get_abs_path(&self, p: &str, canonical: Option<String>) -> (r: String)
        ensures
            r@ == abs_path(self.cwd(), p@, text_view(canonical)),
    {
        let path = chars_of(p);
        if absolute(&path) {
            p.to_owned()
        } else {
            match canonical {
                Some(c) => c,
                None => string_of(&join_paths(&chars_of(self.wrkdir.as_str()), &path)),
            }
        }
    }

    /// The path to ask the subsystem about, to change the working directory
    /// to `dir`.
    pub fn change_dir(&self, dir: &str) -> (r: Result<String, FileTransferError>)
        ensures
            text_result_view(r) == guarded(self.connected(), path_from(self.cwd(), dir@)),
    {
        self.remote_path_query(dir)
    }

    /// Takes in what asking about `dir` came to. Where something is there,
    /// its canonical path becomes the working directory and is returned;
    /// else the working directory stays.
    pub fn change_dir_reply(&mut self, dir: &str, found: Canonical) -> (r: Result<
        String,
        FileTransferError,
    >)
        ensures
            text_result_view(r) == old(self).remote_path_outcome(dir@, found),
            final(self).connected() == old(self).connected(),
            final(self).attempt() == old(self).attempt(),
            final(self).keys() == old(self).keys(),
            final(self).cwd() == (match r {
                Ok(d) => d@,
                Err(_) => old(self).cwd(),
            }),
    {
        match self.get_remote_path(dir, found) {
            Ok(path) => {
                self.wrkdir = path.clone();
                Ok(path)
            },
            Err(e) => Err(e),
        }
    }

    /// Copying is not something this protocol can do.
    pub fn copy(&self, _src: &FsEntry, _dst: &str) -> (r: Result<(), FileTransferError>)
        ensures
            unit_result_view(r) == Err::<(), FileTransferErrorView>(
                plain_error(FileTransferErrorType::UnsupportedFeature),
            ),
    {
        Err(FileTransferError::new(FileTransferErrorType::UnsupportedFeature))
    }

    /// The path to ask the subsystem about, to list the directory `path`.
    /// With its canonical path from `get_remote_path` the directory is then
    /// read.
    pub fn list_dir(&self, path: &str) -> (r: Result<String, FileTransferError>)
        ensures
            text_result_view(r) == guarded(self.connected(), path_from(self.cwd(), path@)),
    {
        self.remote_path_query(path)
    }

    /// The paths of the symbolic links among `files`, in their order: each
    /// is to be read, and what `link_to_look_up` then asks for is to be
    /// looked up, before the entries are made.
    pub fn list_dir_links(&self, files: &Vec<RemoteFile>) -> (r: Vec<String>)
        ensures
            strings_view(r@) == link_paths(files@),
    {
        let mut out: Vec<String> = Vec::new();
        let mut i: usize = 0;
        assert(files@.skip(0) =~= files@);
        assert(strings_view(out@) =~= Seq::<Seq<char>>::empty());
        while i < files.len()
            invariant
                i <= files.len(),
                link_paths(files@) == strings_view(out@) + link_paths(files@.skip(i as int)),
            decreases files.len() - i,
        {
            let ghost rest = files@.skip(i as int);
            let ghost before = strings_view(out@);
            assert(rest[0] == files@[i as int]);
            assert(rest.drop_first() =~= files@.skip(i + 1));
            if stat_is_symlink(&files[i].stat) {
                let path = files[i].path.clone();
                out.push(path);
                assert(strings_view(out@) =~= before + seq![path@]);
                assert(link_paths(files@) =~= strings_view(out@) + link_paths(files@.skip(i + 1)));
            }
            i += 1;
        }
        assert(files@.skip(i as int) =~= Seq::<RemoteFile>::empty());
        assert(link_paths(files@) =~= strings_view(out@));
        out
    }

    /// Takes in what reading a directory gave, and what looking up the
    /// links of `list_dir_links` gave, in their order. The entries come in
    /// the order in which the subsystem listed them. A directory that could
    /// not be read is a `DirStatFailed` with the transport's message.
    pub fn list_dir_reply(
        &self,
        files: Result<Vec<RemoteFile>, String>,
        links: &Vec<Option<FsEntry>>,
    ) -> (r: Result<Vec<FsEntry>, FileTransferError>)
        ensures
            match r {
                Ok(entries) => {
                    &&& self.connected()
                    &&& files matches Ok(listed)
                    &&& entries_view(entries@) == entries_of(listed@, links_view(links@))
                },
                Err(e) => if self.connected() {
                    &&& files matches Err(detail)
                    &&& e@ == detailed_error(FileTransferErrorType::DirStatFailed, detail@)
                } else {
                    e@ == plain_error(FileTransferErrorType::UninitializedSession)
                },
            },
    {
        if !self.connected {
            return Err(FileTransferError::new(FileTransferErrorType::UninitializedSession));
        }
        let listed = match files {
            Ok(l) => l,
            Err(detail) => {
                return Err(
                    FileTransferError::new_ex(FileTransferErrorType::DirStatFailed, detail),
                );
            },
        };
        let ghost given = links_view(links@);
        let mut out: Vec<FsEntry> = Vec::new();
        let mut i: usize = 0;
        let mut used: usize = 0;
        assert(listed@.skip(0) =~= listed@);
        assert(given.skip(0) =~= given);
        assert(entries_view(out@) =~= Seq::<FsEntryView>::empty());
        while i < listed.len()
            invariant
                i <= listed.len(),
                used <= links.len(),
                given == links_view(links@),
                entries_of(listed@, given) == entries_view(out@) + entries_of(
                    listed@.skip(i as int),
                    given.skip(used as int),
                ),
            decreases listed.len() - i,
        {
            let ghost rest = listed@.skip(i as int);
            let ghost left = given.skip(used as int);
            let ghost before = entries_view(out@);
            assert(rest[0] == listed@[i as int]);
            assert(rest.drop_first() =~= listed@.skip(i + 1));
            let file = &listed[i];
            let link: Option<FsEntry> = if stat_is_symlink(&file.stat) && used < links.len() {
                assert(left[0] == given[used as int]);
                assert(given[used as int] == optional_entry_view(links@[used as int]));
                assert(left.drop_first() =~= given.skip(used + 1));
                let l = match &links[used] {
                    Some(e) => Some(e.clone()),
                    None => None,
                };
                used += 1;
                l
            } else {
                None
            };
            let entry = make_fsentry(file.path.as_str(), &file.stat, link);
            out.push(entry);
            assert(entries_view(out@) =~= before + seq![entry@]);
            assert(entries_of(listed@, given) =~= entries_view(out@) + entries_of(
                listed@.skip(i + 1),
                given.skip(used as int),
            ));
            i += 1;
        }
        assert(listed@.skip(i as int) =~= Seq::<RemoteFile>::empty());
        assert(entries_of(listed@, given) =~= entries_view(out@));
        Ok(out)
    }

    /// What making the directory `dir` takes. `canonical` is what the
    /// subsystem made of the path of `abs_path_query`, where it made
    /// anything of it.
    pub fn mkdir(&self, dir: &str, canonical: Option<String>) -> (r: Result<
        SftpMkdir,
        FileTransferError,
    >)
        ensures
            match r {
                Ok(m) => {
                    &&& self.connected()
                    &&& m.path@ == abs_path(self.cwd(), dir@, text_view(canonical))
                    &&& m.mode == MKDIR_MODE
                },
                Err(e) => {
                    &&& !self.connected()
                    &&& e@ == plain_error(FileTransferErrorType::UninitializedSession)
                },
            },
    {
        if !self.connected {
            return Err(FileTransferError::new(FileTransferErrorType::UninitializedSession));
        }
        Ok(SftpMkdir { path: self.get_abs_path(dir, canonical), mode: MKDIR_MODE })
    }

    /// Takes in how making a directory went. A failure is a
    /// `FileCreateDenied` with the transport's message.
    pub fn mkdir_reply(&self, reply: Result<(), String>) -> (r: Result<(), FileTransferError>)
        ensures
            unit_result_view(r) == self.called(reply, FileTransferErrorType::FileCreateDenied),
    {
        self.read_call(reply, FileTransferErrorType::FileCreateDenied)
    }

    /// The first step of a removal.
    pub open spec fn removal_started(&self, entry: FsEntryView) -> RemoveStepView {
        if self.connected() {
            started(entry)
        } else {
            finished(Err(plain_error(FileTransferErrorType::UninitializedSession)))
        }
    }

    /// The step of a removal that follows a reply.
    pub open spec fn removal_continued(
        &self,
        removal: RemovalView,
        reply: RemoveReplyView,
    ) -> RemoveStepView {
        if self.connected() {
            removal_step(removal, reply)
        } else {
            finished(Err(plain_error(FileTransferErrorType::UninitializedSession)))
        }
    }

    /// The first step of removing `file`: a file is removed right away; a
    /// directory is emptied first, entry by entry, and removed when nothing
    /// is left in it.
    pub fn remove(&self, file: &FsEntry) -> (r: RemoveStep)
        ensures
            r@ == self.removal_started(file@),
    {
        if self.connected {
            start(file)
        } else {
            RemoveStep {
                next: None,
                action: RemoveAction::Finish(
                    Err(FileTransferError::new(FileTransferErrorType::UninitializedSession)),
                ),
            }
        }
    }

    /// Takes in how the last call of a removal went, and says what follows.
    /// The first failure ends the removal; what is gone by then stays gone.
    pub fn remove_reply(&self, removal: Removal, reply: RemoveReply) -> (r: RemoveStep)
        ensures
            r@ == self.removal_continued(removal@, reply@),
    {
        if self.connected {
            remove_reply(removal, reply)
        } else {
            RemoveStep {
                next: None,
                action: RemoveAction::Finish(
                    Err(FileTransferError::new(FileTransferErrorType::UninitializedSession)),
                ),
            }
        }
    }

    /// What moving `file` to `dst` takes. `canonical` is what the subsystem
    /// made of the path of `abs_path_query` for `dst`, where it made
    /// anything of it.
    pub fn rename(&self, file: &FsEntry, dst: &str, canonical: Option<String>) -> (r: Result<
        SftpRename,
        FileTransferError,
    >)
        ensures
            match r {
                Ok(m) => {
                    &&& self.connected()
                    &&& m.src@ == file@.abs_path()
                    &&& m.dst@ == abs_path(self.cwd(), dst@, text_view(canonical))
                },
                Err(e) => {
                    &&& !self.connected()
                    &&& e@ == plain_error(FileTransferErrorType::UninitializedSession)
                },
            },
    {
        if !self.connected {
            return Err(FileTransferError::new(FileTransferErrorType::UninitializedSession));
        }
        Ok(SftpRename { src: file.get_abs_path(), dst: self.get_abs_path(dst, canonical) })
    }

    /// Takes in how renaming went. A failure is a `FileCreateDenied` with
    /// the transport's message.
    pub fn rename_reply(&self, reply: Result<(), String>) -> (r: Result<(), FileTransferError>)
        ensures
            unit_result_view(r) == self.called(reply, FileTransferErrorType::FileCreateDenied),
    {
        self.read_call(reply, FileTransferErrorType::FileCreateDenied)
    }

    /// The path to ask the subsystem about, to learn of the entry at
    /// `path`. With its canonical path from `get_remote_path` the subsystem
    /// is then asked what it knows of it.
    pub fn stat(&self, path: &str) -> (r: Result<String, FileTransferError>)
        ensures
            text_result_view(r) == guarded(self.connected(), path_from(self.cwd(), path@)),
    {
        self.remote_path_query(path)
    }

    /// Takes in what the subsystem told of the entry at the canonical path
    /// `path`, and what its link points to, where it is one and that was
    /// looked up. Where the subsystem told nothing, that is a
    /// `NoSuchFileOrDirectory` with the transport's message.
    pub fn stat_reply(&self, path: &str, stat: Result<FileStat, String>, link: Option<FsEntry>) -> (r:
        Result<FsEntry, FileTransferError>)
        ensures
            match r {
                Ok(entry) => {
                    &&& self.connected()
                    &&& stat matches Ok(told)
                    &&& entry@ == fsentry_of(path@, told, optional_entry_view(link))
                },
                Err(e) => if self.connected() {
                    &&& stat matches Err(detail)
                    &&& e@ == detailed_error(FileTransferErrorType::NoSuchFileOrDirectory, detail@)
                } else {
                    e@ == plain_error(FileTransferErrorType::UninitializedSession)
                },
            },
    {
        if !self.connected {
            return Err(FileTransferError::new(FileTransferErrorType::UninitializedSession));
        }
        match stat {
            Ok(told) => Ok(make_fsentry(path, &told, link)),
            Err(detail) => Err(
                FileTransferError::new_ex(FileTransferErrorType::NoSuchFileOrDirectory, detail),
            ),
        }
    }

    /// What opening `file_name` to send the file `local` takes: the file is
    /// opened to write, made where it is not there, cut to nothing where it
    /// is, and written at its end, with the mode of the permissions of
    /// `local`. `canonical` is what the subsystem made of the path of
    /// `abs_path_query`, where it made anything of it.
    pub fn send_file(&self, local: &FsFile, file_name: &str, canonical: Option<String>) -> (r:
        Result<SftpSend, FileTransferError>)
        ensures
            match r {
                Ok(send) => {
                    &&& self.connected()
                    &&& send.path@ == abs_path(self.cwd(), file_name@, text_view(canonical))
                    &&& send.mode as int == mode_of(local.unix_pex)
                    &&& send.write && send.create && send.append && send.truncate
                },
                Err(e) => {
                    &&& !self.connected()
                    &&& e@ == plain_error(FileTransferErrorType::UninitializedSession)
                },
            },
    {
        if !self.connected {
            return Err(FileTransferError::new(FileTransferErrorType::UninitializedSession));
        }
        Ok(
            SftpSend {
                path: self.get_abs_path(file_name, canonical),
                mode: file_mode(local.unix_pex),
                write: true,
                create: true,
                append: true,
                truncate: true,
            },
        )
    }

    /// Takes in how opening the file to send went. A failure is a
    /// `FileCreateDenied` with the transport's message.
    pub fn send_file_reply(&self, reply: Result<(), String>) -> (r: Result<(), FileTransferError>)
        ensures
            unit_result_view(r) == self.called(reply, FileTransferErrorType::FileCreateDenied),
    {
        self.read_call(reply, FileTransferErrorType::FileCreateDenied)
    }

    /// The path to ask the subsystem about, to receive the file `file`.
    /// Its canonical path from `get_remote_path` is then opened to read.
    pub fn recv_file(&self, file: &FsFile) -> (r: Result<String, FileTransferError>)
        ensures
            text_result_view(r) == guarded(self.connected(), path_from(self.cwd(), file.abs_path@)),
    {
        self.remote_path_query(file.abs_path.as_str())
    }

    /// Takes in how opening the file to receive went. A failure is a
    /// `NoSuchFileOrDirectory` with the transport's message.
    pub fn recv_file_reply(&self, reply: Result<(), String>) -> (r: Result<(), FileTransferError>)
        ensures
            unit_result_view(r) == self.called(
                reply,
                FileTransferErrorType::NoSuchFileOrDirectory,
            ),
    {
        self.read_call(reply, FileTransferErrorType::NoSuchFileOrDirectory)
    }

}

impl FileTransfer for SftpFileTransfer {
    closed spec fn connected(&self) -> bool {
        self.connected
    }

    closed spec fn attempt(&self) -> Option<Attempt> {
        self.attempt
    }

    closed spec fn cwd(&self) -> Seq<char> {
        self.wrkdir@
    }

    /// Starts to connect to `address` at `port`, and gives the first action.
    /// The key of the user at that address is used where one is known, else
    /// the password.
    fn connect(
        &mut self,
        address: String,
        port: u16,
        username: Option<String>,
        password: Option<String>,
    ) -> (r: ConnectAction)
        ensures
            final(self).keys() == old(self).keys(),
            final(self).attempt() matches Some(Attempt::Resolving { sftp, credentials }) && sftp
                && is_credentials(
                credentials,
                lookup(old(self).keys().keys@, address@, text_or_empty(username)),
                username,
                password,
            ),
    {
        let user: &str = match &username {
            Some(u) => u.as_str(),
            None => "",
        };
        proof {
            reveal_strlit("");
            assert(""@ =~= Seq::<char>::empty());
        }
        let key = self.key_storage.resolve(address.as_str(), user);
        let step = begin(true, address, port, credentials(key, username, password));
        self.attempt = step.next;
        step.action
    }

    /// Takes in how the last action of a connection attempt went, and gives
    /// the next one. An attempt that is abandoned leaves the backend as it
    /// was before it.
    fn connect_reply(&mut self, reply: ConnectReply) -> (r: ConnectAction)
        ensures
            final(self).keys() == old(self).keys(),
    {
        match self.attempt.take() {
            None => ConnectAction::Abandon(
                FileTransferError::new(FileTransferErrorType::UninitializedSession),
            ),
            Some(attempt) => {
                let step = advance(attempt, reply);
                self.attempt = step.next;
                match step.action {
                    ConnectAction::Established { banner, wrkdir } => {
                        self.connected = true;
                        self.wrkdir = wrkdir.clone();
                        ConnectAction::Established { banner, wrkdir }
                    },
                    action => action,
                }
            },
        }
    }

    /// The description to close the session with: `Mandi!`.
    fn disconnect(&self) -> (r: Result<String, FileTransferError>) {
        if self.connected {
            Ok(String::from_str("Mandi!"))
        } else {
            Err(FileTransferError::new(FileTransferErrorType::UninitializedSession))
        }
    }

    /// Takes in how closing the session went. Once it is closed the backend
    /// is not connected; where closing failed it still is, and the failure
    /// is a `ConnectionError` with the transport's message.
    fn disconnect_reply(&mut self, reply: Result<(), String>) -> (r: Result<
        (),
        FileTransferError,
    >)
        ensures
            final(self).keys() == old(self).keys(),
    {
        if !self.connected {
            return Err(FileTransferError::new(FileTransferErrorType::UninitializedSession));
        }
        match reply {
            Ok(_) => {
                self.connected = false;
                Ok(())
            },
            Err(detail) => Err(
                FileTransferError::new_ex(FileTransferErrorType::ConnectionError, detail),
            ),
        }
    }

    /// Whether the backend is connected.
    fn is_connected(&self) -> (r: bool) {
        self.connected
    }

    /// The working directory.
    fn pwd(&self) -> (r: Result<String, FileTransferError>) {
        if self.connected {
            Ok(self.wrkdir.clone())
        } else {
            Err(FileTransferError::new(FileTransferErrorType::UninitializedSession))
        }
    }

    /// The shell command that runs `cmd` in the working directory. Running
    /// commands is not part of this protocol; the command goes to a shell
    /// on the session below it.
    fn exec(&self, cmd: &str) -> (r: Result<String, FileTransferError>) {
        if self.connected {
            Ok(in_directory(self.wrkdir.as_str(), cmd))
        } else {
            Err(FileTransferError::new(FileTransferErrorType::UninitializedSession))
        }
    }

    /// Takes in what the command of `exec` wrote, and gives all of it.
    fn exec_reply(&self, cmd: &str, reply: ShellReply) -> (r: Result<String, FileTransferError>) {
        if !self.connected {
            return Err(FileTransferError::new(FileTransferErrorType::UninitializedSession));
        }
        let full = in_directory(self.wrkdir.as_str(), cmd);
        match shell_result(full.as_str(), reply) {
            Ok(out) => Ok(out),
            Err(e) => Err(wrap(&e)),
        }
    }

    /// Ends the sending of a file. This protocol has nothing to do then.
    fn on_sent(&self) -> (r: Result<(), FileTransferError>)
        ensures
            r is Ok,
    {
        Ok(())
    }

    /// Ends the receiving of a file. This protocol has nothing to do then.
    fn on_recv(&self) -> (r: Result<(), FileTransferError>)
        ensures
            r is Ok,
    {
        Ok(())
    }
}

/// While it is not connected, the backend answers every request, and every
/// reply that it is handed, with `UninitializedSession`. The exceptions are
/// `copy`, which this protocol never has, and the ends of a transfer,
/// which have nothing to do.
pub proof fn lemma_unconnected_refuses(
    backend: SftpFileTransfer,
    path: Seq<char>,
    found: Canonical,
    call: Result<(), String>,
    denied: FileTransferErrorType,
    command: Seq<char>,
    reply: ShellReplyView,
    entry: FsEntryView,
    removal: RemovalView,
    removed: RemoveReplyView,
)
    requires
        !backend.connected(),
    ensures
        guarded(backend.connected(), path) == Err::<Seq<char>, FileTransferErrorView>(
            plain_error(FileTransferErrorType::UninitializedSession),
        ),
        backend.remote_path_outcome(path, found) == Err::<Seq<char>, FileTransferErrorView>(
            plain_error(FileTransferErrorType::UninitializedSession),
        ),
        backend.called(call, denied) == Err::<(), FileTransferErrorView>(
            plain_error(FileTransferErrorType::UninitializedSession),
        ),
        exec_outcome(backend.connected(), backend.cwd(), command, reply) == Err::<
            Seq<char>,
            FileTransferErrorView,
        >(plain_error(FileTransferErrorType::UninitializedSession)),
        disconnect_outcome(backend.connected(), call) == Err::<(), FileTransferErrorView>(
            plain_error(FileTransferErrorType::UninitializedSession),
        ),
        backend.removal_started(entry) == finished(
            Err(plain_error(FileTransferErrorType::UninitializedSession)),
        ),
        backend.removal_continued(removal, removed) == finished(
            Err(plain_error(FileTransferErrorType::UninitializedSession)),
        ),
{
}

} // verus!
