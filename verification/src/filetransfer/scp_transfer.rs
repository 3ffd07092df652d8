//! File transfer over a remote shell. But for the copying of a file's bytes,
//! every operation is a shell command: the backend says which, the caller
//! runs it, and the backend reads what it wrote.

use vstd::prelude::*;
use vstd::string::StringExecFns;
use crate::filetransfer::connect::{
    advance, begin, credentials, is_credentials, text_or_empty, Attempt, ConnectAction,
    ConnectReply,
};
use crate::filetransfer::listing::{
    line_entry, line_target, link_target, link_targets, listed_entries, parse_listing,
    parse_ls_output, resolution_view, resolutions_view, targets, tokenize, LinkResolution,
    LinkResolutionView,
};
use crate::filetransfer::pex::{file_mode, mode_of};
use crate::filetransfer::shell::{
    command_in, in_directory, quote, quoted, shell_outcome, shell_result, status_outcome,
    status_result, text_result_view, unit_result_view, wrap, wrapped, ShellReply,
    ShellReplyView,
};
use crate::filetransfer::{
    detailed_error, disconnect_outcome, exec_outcome, guarded, plain_error, FileTransfer,
    FileTransferError, FileTransferErrorType, FileTransferErrorView,
};
use crate::fs::{entries_view, text_view, FsEntry, FsEntryView, FsFile};
use crate::system::sshkey_storage::{lookup, SshKeyStorage};
use crate::utils::path::{absolute, is_absolute, join, join_paths, parent, parent_of};
use crate::utils::text::{
    chars_of, is_whitespace, lines, slice_of, split_lines, string_of, strings_view, trim,
    trimmed, whitespace,
};

verus! {

/// The path that `cd` is given for `dir`: `dir` itself where it is absolute,
/// else `dir` below `.`.
pub open spec fn cd_target(dir: Seq<char>) -> Seq<char> {
    if is_absolute(dir) {
        dir
    } else {
        join(seq!['.'], dir)
    }
}

/// The command that changes to `dir` and says how that went and where it
/// came to.
pub open spec fn change_dir_command(dir: Seq<char>) -> Seq<char> {
    "cd "@ + quoted(cd_target(dir)) + "; echo $?; pwd"@
}

/// The directory that the output of a change of directory reports: the
/// output, without white space around it, must begin with the exit status
/// `0`; what follows it, without white space around it, is the directory.
pub open spec fn changed_dir(output: Seq<char>) -> Option<Seq<char>> {
    let t = trimmed(output);
    if t.len() > 0 && t[0] == '0' {
        Some(trimmed(t.skip(1)))
    } else {
        None
    }
}

/// The command that copies `src` to `dst`, with all below it.
pub open spec fn copy_command(src: Seq<char>, dst: Seq<char>) -> Seq<char> {
    "cp -rf "@ + quoted(src) + " "@ + quoted(dst) + "; echo $?"@
}

/// The command that lists the directory `path`, hidden entries too.
pub open spec fn list_dir_command(path: Seq<char>) -> Seq<char> {
    "ls -la "@ + quoted(path)
}

/// The command that makes the directory `dir`.
pub open spec fn mkdir_command(dir: Seq<char>) -> Seq<char> {
    "mkdir "@ + quoted(dir) + "; echo $?"@
}

/// The command that removes `path`, with all below it.
pub open spec fn remove_command(path: Seq<char>) -> Seq<char> {
    "rm -rf "@ + quoted(path) + "; echo $?"@
}

/// The command that moves `src` to `dst`.
pub open spec fn rename_command(src: Seq<char>, dst: Seq<char>) -> Seq<char> {
    "mv -f "@ + quoted(src) + " "@ + quoted(dst) + "; echo $?"@
}

/// The path that is listed for the entry at `path`: `path` itself where it
/// is absolute, else `path` below the working directory.
pub open spec fn stat_path(cwd: Seq<char>, path: Seq<char>) -> Seq<char> {
    if is_absolute(path) {
        path
    } else {
        join(cwd, path)
    }
}

/// The command that lists the one entry at the absolute path `path`.
pub open spec fn stat_command(path: Seq<char>) -> Seq<char> {
    "ls -l "@ + quoted(path)
}

/// The refusal to describe a directory: a listing shows what is in it, not
/// the directory itself.
pub open spec fn no_stat_of_directories() -> FileTransferErrorView {
    detailed_error(
        FileTransferErrorType::UnsupportedFeature,
        "stat is not supported for directories"@,
    )
}

/// Whether a line is the count that a listing of a directory begins with:
/// the word `total`, at the end of the line or with white space behind it.
pub open spec fn is_total_line(line: Seq<char>) -> bool {
    &&& line.len() >= 5
    &&& line[0] == 't'
    &&& line[1] == 'o'
    &&& line[2] == 't'
    &&& line[3] == 'a'
    &&& line[4] == 'l'
    &&& (line.len() == 5 || is_whitespace(line[5]))
}

/// Whether the output of a listing shows what is in a directory, not one
/// entry: its first line is the count of a directory.
pub open spec fn lists_directory(output: Seq<char>) -> bool {
    lines(output).len() > 0 && is_total_line(lines(output)[0])
}

/// What an entry or a failure holds.
pub open spec fn entry_result_view(r: Result<FsEntry, FileTransferError>) -> Result<
    FsEntryView,
    FileTransferErrorView,
> {
    match r {
        Ok(e) => Ok(e@),
        Err(e) => Err(e@),
    }
}

/// The refusal to describe a directory.
fn refuse_directory() -> (r: FileTransferError)
    ensures
        r@ == no_stat_of_directories(),
{
    FileTransferError::new_ex(
        FileTransferErrorType::UnsupportedFeature,
        String::from_str("stat is not supported for directories"),
    )
}

/// Tells whether the output of a listing shows what is in a directory.
fn shows_directory(output: &str) -> (r: bool)
    ensures
        r == lists_directory(output@),
{
    let all = split_lines(&chars_of(output));
    if all.len() == 0 {
        return false;
    }
    let line = &all[0];
    assert(lines(output@)[0] == line@);
    line.len() >= 5 && line[0] == 't' && line[1] == 'o' && line[2] == 't' && line[3] == 'a'
        && line[4] == 'l' && (line.len() == 5 || whitespace(line[5]))
}

/// What sending a file takes: where to, with which mode, how many bytes, and
/// the times of its last change and last access.
#[derive(Debug, PartialEq, Eq)]
pub struct ScpSend {
    pub path: String,
    pub mode: i32,
    pub size: u64,
    pub times: (u64, u64),
}

/// Builds the path that `cd` is given for `dir`.
fn build_cd_target(dir: &str) -> (r: String)
    ensures
        r@ == cd_target(dir@),
{
    let d = chars_of(dir);
    if absolute(&d) {
        string_of(&d)
    } else {
        let here: Vec<char> = vec!['.'];
        assert(here@ =~= seq!['.']);
        string_of(&join_paths(&here, &d))
    }
}

/// Builds the command that changes to `dir`.
fn build_change_dir(dir: &str) -> (r: String)
    ensures
        r@ == change_dir_command(dir@),
{
    let mut c = String::from_str("cd ");
    c.append(quote(build_cd_target(dir).as_str()).as_str());
    c.append("; echo $?; pwd");
    c
}

/// Builds the command that copies `src` to `dst`.
fn build_copy(src: &str, dst: &str) -> (r: String)
    ensures
        r@ == copy_command(src@, dst@),
{
    let mut c = String::from_str("cp -rf ");
    c.append(quote(src).as_str());
    c.append(" ");
    c.append(quote(dst).as_str());
    c.append("; echo $?");
    c
}

/// Builds the command that lists the directory `path`.
fn build_list_dir(path: &str) -> (r: String)
    ensures
        r@ == list_dir_command(path@),
{
    let mut c = String::from_str("ls -la ");
    c.append(quote(path).as_str());
    c
}

/// Builds the command that makes the directory `dir`.
fn build_mkdir(dir: &str) -> (r: String)
    ensures
        r@ == mkdir_command(dir@),
{
    let mut c = String::from_str("mkdir ");
    c.append(quote(dir).as_str());
    c.append("; echo $?");
    c
}

/// Builds the command that removes `path`.
fn build_remove(path: &str) -> (r: String)
    ensures
        r@ == remove_command(path@),
{
    let mut c = String::from_str("rm -rf ");
    c.append(quote(path).as_str());
    c.append("; echo $?");
    c
}

/// Builds the command that moves `src` to `dst`.
fn build_rename(src: &str, dst: &str) -> (r: String)
    ensures
        r@ == rename_command(src@, dst@),
{
    let mut c = String::from_str("mv -f ");
    c.append(quote(src).as_str());
    c.append(" ");
    c.append(quote(dst).as_str());
    c.append("; echo $?");
    c
}

/// Builds the command that lists the one entry at `path`.
fn build_stat(path: &str) -> (r: String)
    ensures
        r@ == stat_command(path@),
{
    let mut c = String::from_str("ls -l ");
    c.append(quote(path).as_str());
    c
}

/// Reads the directory that the output of a change of directory reports.
fn read_changed_dir(output: &str) -> (r: Option<String>)
    ensures
        text_view(r) == changed_dir(output@),
{
    let t = trim(&chars_of(output));
    if t.len() > 0 && t[0] == '0' {
        let rest = slice_of(&t, 1, t.len());
        assert(rest@ =~= t@.skip(1));
        Some(string_of(&trim(&rest)))
    } else {
        None
    }
}

/// A backend that transfers files over a remote shell.
#[derive(Debug)]
pub struct ScpFileTransfer {
    connected: bool,
    attempt: Option<Attempt>,
    wrkdir: String,
    key_storage: SshKeyStorage,
}

impl ScpFileTransfer {
    /// The private keys that the backend knows.
    pub closed spec fn keys(&self) -> SshKeyStorage {
        self.key_storage
    }

    /// What a request comes to: `command`, to be run in the working
    /// directory, where the backend is connected.
    pub open spec fn request(&self, command: Seq<char>) -> Result<Seq<char>, FileTransferErrorView> {
        if self.connected() {
            Ok(command_in(self.cwd(), command))
        } else {
            Err(plain_error(FileTransferErrorType::UninitializedSession))
        }
    }

    /// What the reply to a command that ends in `echo $?` comes to.
    pub open spec fn status(
        &self,
        command: Seq<char>,
        reply: ShellReplyView,
        denied: FileTransferErrorType,
        subject: Seq<char>,
    ) -> Result<(), FileTransferErrorView> {
        if self.connected() {
            status_outcome(command_in(self.cwd(), command), reply, denied, subject)
        } else {
            Err(plain_error(FileTransferErrorType::UninitializedSession))
        }
    }

    /// A backend that is not connected and knows the keys of `key_storage`.
    pub fn new(key_storage: SshKeyStorage) -> (r: ScpFileTransfer)
        ensures
            !r.connected(),
            r.attempt() is None,
            r.cwd() == "~"@,
            r.keys() == key_storage,
    {
        ScpFileTransfer {
            connected: false,
            attempt: None,
            wrkdir: String::from_str("~"),
            key_storage,
        }
    }

    /// `command`, to be run in the working directory.
    fn command(&self, command: &str) -> (r: String)
        ensures
            r@ == command_in(self.cwd(), command@),
    {
        in_directory(self.wrkdir.as_str(), command)
    }

    /// The request that runs `command` in the working directory.
    fn ask(&self, command: &str) -> (r: Result<String, FileTransferError>)
        ensures
            text_result_view(r) == self.request(command@),
    {
        if self.connected {
            Ok(self.command(command))
        } else {
            Err(FileTransferError::new(FileTransferErrorType::UninitializedSession))
        }
    }

    /// Reads the reply to a command that ends in `echo $?`.
    fn read_status(
        &self,
        command: &str,
        reply: ShellReply,
        denied: FileTransferErrorType,
        subject: &str,
    ) -> (r: Result<(), FileTransferError>)
        ensures
            unit_result_view(r) == self.status(command@, reply@, denied, subject@),
    {
        if self.connected {
            let full = self.command(command);
            status_result(full.as_str(), reply, denied, subject)
        } else {
            Err(FileTransferError::new(FileTransferErrorType::UninitializedSession))
        }
    }

    /// The command that changes the working directory to `dir`, which is
    /// taken from the working directory unless it is absolute.
    pub fn change_dir(&self, dir: &str) -> (r: Result<String, FileTransferError>)
        ensures
            text_result_view(r) == self.request(change_dir_command(dir@)),
    {
        self.ask(build_change_dir(dir).as_str())
    }

    /// What a change of directory came to.
    pub open spec fn change_dir_outcome(&self, dir: Seq<char>, reply: ShellReplyView) -> Result<
        Seq<char>,
        FileTransferErrorView,
    > {
        if !self.connected() {
            Err(plain_error(FileTransferErrorType::UninitializedSession))
        } else {
            match shell_outcome(command_in(self.cwd(), change_dir_command(dir)), reply) {
                Ok(out) => match changed_dir(out) {
                    Some(d) => Ok(d),
                    None => Err(
                        detailed_error(FileTransferErrorType::NoSuchFileOrDirectory, quoted(dir)),
                    ),
                },
                Err(e) => Err(wrapped(e)),
            }
        }
    }

    /// Takes in what the command of `change_dir` wrote. Where it reports
    /// success, the directory that it names becomes the working directory
    /// and is returned. Output that does not begin with the exit status `0`
    /// is a `NoSuchFileOrDirectory`, and nothing else; the working directory
    /// then stays.
    pub fn change_dir_reply(&mut self, dir: &str, reply: ShellReply) -> (r: Result<
        String,
        FileTransferError,
    >)
        ensures
            text_result_view(r) == old(self).change_dir_outcome(dir@, reply@),
            final(self).connected() == old(self).connected(),
            final(self).attempt() == old(self).attempt(),
            final(self).keys() == old(self).keys(),
            final(self).cwd() == (match r {
                Ok(d) => d@,
                Err(_) => old(self).cwd(),
            }),
            old(self).connected() && reply@ is Output && changed_dir(reply@->Output_0) is None ==> r
                is Err && r->Err_0@.code == FileTransferErrorType::NoSuchFileOrDirectory,
    {
        if !self.connected {
            return Err(FileTransferError::new(FileTransferErrorType::UninitializedSession));
        }
        let full = self.command(build_change_dir(dir).as_str());
        match shell_result(full.as_str(), reply) {
            Ok(out) => match read_changed_dir(out.as_str()) {
                Some(d) => {
                    self.wrkdir = d.clone();
                    Ok(d)
                },
                None => Err(
                    FileTransferError::new_ex(
                        FileTransferErrorType::NoSuchFileOrDirectory,
                        quote(dir),
                    ),
                ),
            },
            Err(e) => Err(wrap(&e)),
        }
    }

    /// The command that copies `src` to `dst`.
    pub fn copy(&self, src: &FsEntry, dst: &str) -> (r: Result<String, FileTransferError>)
        ensures
            text_result_view(r) == self.request(copy_command(src@.abs_path(), dst@)),
    {
        self.ask(build_copy(src.get_abs_path().as_str(), dst).as_str())
    }

    /// Takes in what the command of `copy` wrote. Anything but a reported
    /// success is a `FileCreateDenied` for `dst`.
    pub fn copy_reply(&self, src: &FsEntry, dst: &str, reply: ShellReply) -> (r: Result<
        (),
        FileTransferError,
    >)
        ensures
            unit_result_view(r) == self.status(
                copy_command(src@.abs_path(), dst@),
                reply@,
                FileTransferErrorType::FileCreateDenied,
                dst@,
            ),
    {
        self.read_status(
            build_copy(src.get_abs_path().as_str(), dst).as_str(),
            reply,
            FileTransferErrorType::FileCreateDenied,
            dst,
        )
    }

    /// The command that lists the directory `path`.
    pub fn list_dir(&self, path: &str) -> (r: Result<String, FileTransferError>)
        ensures
            text_result_view(r) == self.request(list_dir_command(path@)),
    {
        self.ask(build_list_dir(path).as_str())
    }

    /// The targets that a listing asks to look up.
    pub open spec fn list_dir_targets(&self, path: Seq<char>, reply: ShellReplyView) -> Seq<
        Seq<char>,
    > {
        match reply {
            ShellReplyView::Output(out) => if self.connected() {
                targets(path, lines(out))
            } else {
                Seq::empty()
            },
            _ => Seq::empty(),
        }
    }

    /// The targets of the symbolic links in what the command of `list_dir`
    /// wrote: those that have to be looked up, each once, before the entries
    /// can be built.
    pub fn list_dir_links(&self, path: &str, reply: &ShellReply) -> (r: Vec<String>)
        ensures
            strings_view(r@) == self.list_dir_targets(path@, reply@),
    {
        match reply {
            ShellReply::Output(out) => if self.connected {
                link_targets(path, out.as_str())
            } else {
                let none: Vec<String> = Vec::new();
                assert(strings_view(none@) =~= Seq::<Seq<char>>::empty());
                none
            },
            _ => {
                let none: Vec<String> = Vec::new();
                assert(strings_view(none@) =~= Seq::<Seq<char>>::empty());
                none
            },
        }
    }

    /// Takes in what the command of `list_dir` wrote, and what looking up
    /// the targets of `list_dir_links` gave, in their order. The entries
    /// come in the order of their lines; lines that stand for no entry are
    /// passed over, so that a listing that could be read never fails.
    pub fn list_dir_reply(
        &self,
        path: &str,
        reply: ShellReply,
        this_year: u32,
        found: &Vec<LinkResolution>,
    ) -> (r: Result<Vec<FsEntry>, FileTransferError>)
        ensures
            match r {
                Ok(entries) => {
                    &&& self.connected()
                    &&& shell_outcome(command_in(self.cwd(), list_dir_command(path@)), reply@)
                        matches Ok(out)
                    &&& entries_view(entries@) == listed_entries(
                        path@,
                        lines(out),
                        this_year as int,
                        resolutions_view(found@),
                    )
                    &&& forall|i: int|
                        0 <= i < entries.len() ==> (#[trigger] entries[i])@.named_by_path()
                },
                Err(e) => if self.connected() {
                    &&& shell_outcome(command_in(self.cwd(), list_dir_command(path@)), reply@)
                        matches Err(failure)
                    &&& e@ == wrapped(failure)
                } else {
                    e@ == plain_error(FileTransferErrorType::UninitializedSession)
                },
            },
    {
        if !self.connected {
            return Err(FileTransferError::new(FileTransferErrorType::UninitializedSession));
        }
        let full = self.command(build_list_dir(path).as_str());
        match shell_result(full.as_str(), reply) {
            Ok(out) => Ok(parse_listing(path, out.as_str(), this_year, found)),
            Err(e) => Err(wrap(&e)),
        }
    }

    /// The command that makes the directory `dir`.
    pub fn mkdir(&self, dir: &str) -> (r: Result<String, FileTransferError>)
        ensures
            text_result_view(r) == self.request(mkdir_command(dir@)),
    {
        self.ask(build_mkdir(dir).as_str())
    }

    /// Takes in what the command of `mkdir` wrote. Anything but a reported
    /// success, a directory that exists already too, is a `FileCreateDenied`.
    pub fn mkdir_reply(&self, dir: &str, reply: ShellReply) -> (r: Result<(), FileTransferError>)
        ensures
            unit_result_view(r) == self.status(
                mkdir_command(dir@),
                reply@,
                FileTransferErrorType::FileCreateDenied,
                dir@,
            ),
    {
        self.read_status(
            build_mkdir(dir).as_str(),
            reply,
            FileTransferErrorType::FileCreateDenied,
            dir,
        )
    }

    /// The command that removes `file`, with all below it.
    pub fn remove(&self, file: &FsEntry) -> (r: Result<String, FileTransferError>)
        ensures
            text_result_view(r) == self.request(remove_command(file@.abs_path())),
    {
        self.ask(build_remove(file.get_abs_path().as_str()).as_str())
    }

    /// Takes in what the command of `remove` wrote. Anything but a reported
    /// success is a `PexError`.
    pub fn remove_reply(&self, file: &FsEntry, reply: ShellReply) -> (r: Result<
        (),
        FileTransferError,
    >)
        ensures
            unit_result_view(r) == self.status(
                remove_command(file@.abs_path()),
                reply@,
                FileTransferErrorType::PexError,
                file@.abs_path(),
            ),
    {
        let path = file.get_abs_path();
        self.read_status(
            build_remove(path.as_str()).as_str(),
            reply,
            FileTransferErrorType::PexError,
            path.as_str(),
        )
    }

    /// The command that moves `file` to `dst`.
    pub fn rename(&self, file: &FsEntry, dst: &str) -> (r: Result<String, FileTransferError>)
        ensures
            text_result_view(r) == self.request(rename_command(file@.abs_path(), dst@)),
    {
        self.ask(build_rename(file.get_abs_path().as_str(), dst).as_str())
    }

    /// Takes in what the command of `rename` wrote. Anything but a reported
    /// success is a `PexError`.
    pub fn rename_reply(&self, file: &FsEntry, dst: &str, reply: ShellReply) -> (r: Result<
        (),
        FileTransferError,
    >)
        ensures
            unit_result_view(r) == self.status(
                rename_command(file@.abs_path(), dst@),
                reply@,
                FileTransferErrorType::PexError,
                file@.abs_path(),
            ),
    {
        let path = file.get_abs_path();
        self.read_status(
            build_rename(path.as_str(), dst).as_str(),
            reply,
            FileTransferErrorType::PexError,
            path.as_str(),
        )
    }

    /// Builds the path that is listed for the entry at `path`.
    fn build_stat_path(&self, path: &str) -> (r: Vec<char>)
        ensures
            r@ == stat_path(self.cwd(), path@),
    {
        let p = chars_of(path);
        if absolute(&p) {
            p
        } else {
            join_paths(&chars_of(self.wrkdir.as_str()), &p)
        }
    }

    /// What asking for the entry at `path` comes to: the command that
    /// lists it, where the backend is connected and the path is not known
    /// to be a directory.
    pub open spec fn stat_request(&self, path: Seq<char>, is_dir: bool) -> Result<
        Seq<char>,
        FileTransferErrorView,
    > {
        if !self.connected() {
            Err(plain_error(FileTransferErrorType::UninitializedSession))
        } else if is_dir {
            Err(no_stat_of_directories())
        } else {
            Ok(command_in(self.cwd(), stat_command(stat_path(self.cwd(), path))))
        }
    }

    /// The command that lists the one entry at `path`, which is taken from
    /// the working directory unless it is absolute. `is_dir` says that the
    /// path is known to be a directory: a listing would show what is in it,
    /// not the directory itself, so that is refused as an
    /// `UnsupportedFeature` without asking the server. A backend that is not
    /// connected refuses with `UninitializedSession`, whatever is known of
    /// the path.
    pub fn stat(&self, path: &str, is_dir: bool) -> (r: Result<String, FileTransferError>)
        ensures
            text_result_view(r) == self.stat_request(path@, is_dir),
    {
        if !self.connected {
            return Err(FileTransferError::new(FileTransferErrorType::UninitializedSession));
        }
        if is_dir {
            return Err(refuse_directory());
        }
        let abs = string_of(&self.build_stat_path(path));
        Ok(self.command(build_stat(abs.as_str()).as_str()))
    }

    /// The target that the entry at `path` asks to look up.
    pub open spec fn stat_target(&self, path: Seq<char>, reply: ShellReplyView) -> Option<
        Seq<char>,
    > {
        match reply {
            ShellReplyView::Output(out) => if self.connected() && !lists_directory(out) {
                match parent(stat_path(self.cwd(), path)) {
                    Some(dir) => line_target(dir, trimmed(out)),
                    None => None,
                }
            } else {
                None
            },
            _ => None,
        }
    }

    /// The target of the symbolic link in what the command of `stat` wrote,
    /// where it has to be looked up before the entry can be built. The
    /// target is looked up once; what it points to in turn is not followed.
    pub fn stat_link(&self, path: &str, reply: &ShellReply) -> (r: Option<String>)
        ensures
            text_view(r) == self.stat_target(path@, reply@),
    {
        match reply {
            ShellReply::Output(out) => {
                if !self.connected || shows_directory(out.as_str()) {
                    return None;
                }
                let dir = match parent_of(&self.build_stat_path(path)) {
                    Some(d) => string_of(&d),
                    None => {
                        return None;
                    },
                };
                let line = string_of(&trim(&chars_of(out.as_str())));
                match tokenize(line.as_str()) {
                    Some(tokens) => link_target(dir.as_str(), &tokens),
                    None => None,
                }
            },
            _ => None,
        }
    }

    /// What the reply to the command of `stat` comes to. Output that shows
    /// what is in a directory is an `UnsupportedFeature`; a path without a
    /// parent too. Else the entry is that of the output's one line, in the
    /// parent of the path; output that is no line of a listing, or stands
    /// for no entry, is a `NoSuchFileOrDirectory`.
    pub open spec fn stat_outcome(
        &self,
        path: Seq<char>,
        reply: ShellReplyView,
        this_year: int,
        resolution: Option<LinkResolutionView>,
    ) -> Result<FsEntryView, FileTransferErrorView> {
        if !self.connected() {
            Err(plain_error(FileTransferErrorType::UninitializedSession))
        } else {
            match shell_outcome(
                command_in(self.cwd(), stat_command(stat_path(self.cwd(), path))),
                reply,
            ) {
                Err(failure) => Err(wrapped(failure)),
                Ok(out) => if lists_directory(out) {
                    Err(no_stat_of_directories())
                } else {
                    match parent(stat_path(self.cwd(), path)) {
                        None => Err(
                            detailed_error(
                                FileTransferErrorType::UnsupportedFeature,
                                "Path has no parent"@,
                            ),
                        ),
                        Some(dir) => match line_entry(dir, trimmed(out), this_year, resolution) {
                            Some(entry) => Ok(entry),
                            None => Err(
                                plain_error(FileTransferErrorType::NoSuchFileOrDirectory),
                            ),
                        },
                    }
                },
            }
        }
    }

    /// Takes in what the command of `stat` wrote, and what looking up the
    /// target of `stat_link` gave; see `stat_outcome`.
    pub fn stat_reply(
        &self,
        path: &str,
        reply: ShellReply,
        this_year: u32,
        resolution: Option<LinkResolution>,
    ) -> (r: Result<FsEntry, FileTransferError>)
        ensures
            entry_result_view(r) == self.stat_outcome(
                path@,
                reply@,
                this_year as int,
                resolution_view(resolution),
            ),
            r matches Ok(entry) ==> entry@.named_by_path(),
    {
        if !self.connected {
            return Err(FileTransferError::new(FileTransferErrorType::UninitializedSession));
        }
        let abs = self.build_stat_path(path);
        let full = self.command(build_stat(string_of(&abs).as_str()).as_str());
        let out = match shell_result(full.as_str(), reply) {
            Ok(out) => out,
            Err(e) => {
                return Err(wrap(&e));
            },
        };
        if shows_directory(out.as_str()) {
            return Err(refuse_directory());
        }
        let dir = match parent_of(&abs) {
            Some(d) => string_of(&d),
            None => {
                return Err(
                    FileTransferError::new_ex(
                        FileTransferErrorType::UnsupportedFeature,
                        String::from_str("Path has no parent"),
                    ),
                );
            },
        };
        let line = string_of(&trim(&chars_of(out.as_str())));
        match parse_ls_output(dir.as_str(), line.as_str(), this_year, resolution) {
            Ok(entry) => Ok(entry),
            Err(_) => Err(FileTransferError::new(FileTransferErrorType::NoSuchFileOrDirectory)),
        }
    }

    /// What looking up the target of a link comes to: the target is a
    /// directory where the command of `stat` showed what is in one, and its
    /// entry is what `stat_reply` makes of the output, if it makes one.
    pub open spec fn target_resolution(
        &self,
        target: Seq<char>,
        reply: ShellReplyView,
        this_year: int,
    ) -> LinkResolutionView {
        LinkResolutionView {
            is_dir: self.connected() && reply is Output && lists_directory(reply->Output_0),
            entry: match self.stat_outcome(target, reply, this_year, None) {
                Ok(entry) => Some(entry),
                Err(_) => None,
            },
        }
    }

    /// Takes in what the command of `stat` wrote for the target of a link,
    /// and says what the link gets of it: whether the target is a
    /// directory, and its entry. What the target points to in turn is not
    /// followed.
    pub fn resolve_link(&self, target: &str, reply: ShellReply, this_year: u32) -> (r:
        LinkResolution)
        ensures
            r@ == self.target_resolution(target@, reply@, this_year as int),
    {
        let is_dir: bool = match &reply {
            ShellReply::Output(out) => self.connected && shows_directory(out.as_str()),
            _ => false,
        };
        let entry: Option<FsEntry> = match self.stat_reply(target, reply, this_year, None) {
            Ok(e) => Some(e),
            Err(_) => None,
        };
        LinkResolution { is_dir, entry }
    }

    /// What it takes to send the file `local` to `file_name`: the mode of
    /// its permissions, the times of its last change and last access, and
    /// its size. `disk_size` is the size that the file has on disk now,
    /// where that can be told; the recorded size is used only without it.
    pub fn send_file(&self, local: &FsFile, file_name: &str, disk_size: Option<u64>) -> (r: Result<
        ScpSend,
        FileTransferError,
    >)
        ensures
            match r {
                Ok(send) => {
                    &&& self.connected()
                    &&& send.path@ == file_name@
                    &&& send.mode as int == mode_of(local.unix_pex)
                    &&& send.size == (match disk_size {
                        Some(n) => n,
                        None => local.size as u64,
                    })
                    &&& send.times == (local.last_change_time, local.last_access_time)
                },
                Err(e) => {
                    &&& !self.connected()
                    &&& e@ == plain_error(FileTransferErrorType::UninitializedSession)
                },
            },
    {
        if !self.connected {
            return Err(FileTransferError::new(FileTransferErrorType::UninitializedSession));
        }
        Ok(
            ScpSend {
                path: file_name.to_owned(),
                mode: file_mode(local.unix_pex),
                size: match disk_size {
                    Some(n) => n,
                    None => local.size as u64,
                },
                times: (local.last_change_time, local.last_access_time),
            },
        )
    }

    /// The path to receive the file `file` from.
    pub fn recv_file(&self, file: &FsFile) -> (r: Result<String, FileTransferError>)
        ensures
            text_result_view(r) == (if self.connected() {
                Ok(file.abs_path@)
            } else {
                Err(plain_error(FileTransferErrorType::UninitializedSession))
            }),
    {
        if self.connected {
            Ok(file.abs_path.clone())
        } else {
            Err(FileTransferError::new(FileTransferErrorType::UninitializedSession))
        }
    }

    /// What opening a stream for a transfer came to.
    pub open spec fn transfer_outcome(&self, reply: Result<(), String>) -> Result<
        (),
        FileTransferErrorView,
    > {
        if !self.connected() {
            Err(plain_error(FileTransferErrorType::UninitializedSession))
        } else {
            match reply {
                Ok(_) => Ok(()),
                Err(detail) => Err(detailed_error(FileTransferErrorType::ProtocolError, detail@)),
            }
        }
    }

    /// Takes in how opening the stream to send a file went. A failure is a
    /// `ProtocolError` with the transport's message.
    pub fn send_file_reply(&self, reply: Result<(), String>) -> (r: Result<(), FileTransferError>)
        ensures
            unit_result_view(r) == self.transfer_outcome(reply),
    {
        self.read_transfer(reply)
    }

    /// Takes in how opening the stream to receive a file went. A failure is
    /// a `ProtocolError` with the transport's message.
    pub fn recv_file_reply(&self, reply: Result<(), String>) -> (r: Result<(), FileTransferError>)
        ensures
            unit_result_view(r) == self.transfer_outcome(reply),
    {
        self.read_transfer(reply)
    }

    /// Reads how opening a stream went.
    fn read_transfer(&self, reply: Result<(), String>) -> (r: Result<(), FileTransferError>)
        ensures
            unit_result_view(r) == self.transfer_outcome(reply),
    {
        if !self.connected {
            return Err(FileTransferError::new(FileTransferErrorType::UninitializedSession));
        }
        match reply {
            Ok(_) => Ok(()),
            Err(detail) => Err(
                FileTransferError::new_ex(FileTransferErrorType::ProtocolError, detail),
            ),
        }
    }

}

impl FileTransfer for ScpFileTransfer {
    closed spec fn connected(&self) -> bool {
        self.connected
    }

    closed spec fn attempt(&self) -> Option<Attempt> {
        self.attempt
    }

    closed spec fn cwd(&self) -> Seq<char> {
        self.wrkdir@
    }

    /// Starts to connect to `address` at `port`, and gives the first action.
    /// The key of the user at that address is used where one is known, else
    /// the password.
    fn connect(
        &mut self,
        address: String,
        port: u16,
        username: Option<String>,
        password: Option<String>,
    ) -> (r: ConnectAction)
        ensures
            final(self).keys() == old(self).keys(),
            final(self).attempt() matches Some(Attempt::Resolving { sftp, credentials }) && !sftp
                && is_credentials(
                credentials,
                lookup(old(self).keys().keys@, address@, text_or_empty(username)),
                username,
                password,
            ),
    {
        let user: &str = match &username {
            Some(u) => u.as_str(),
            None => "",
        };
        proof {
            reveal_strlit("");
            assert(""@ =~= Seq::<char>::empty());
        }
        let key = self.key_storage.resolve(address.as_str(), user);
        let step = begin(false, address, port, credentials(key, username, password));
        self.attempt = step.next;
        step.action
    }

    /// Takes in how the last action of a connection attempt went, and gives
    /// the next one. An attempt that is abandoned leaves the backend as it
    /// was before it.
    fn connect_reply(&mut self, reply: ConnectReply) -> (r: ConnectAction)
        ensures
            final(self).keys() == old(self).keys(),
    {
        match self.attempt.take() {
            None => ConnectAction::Abandon(
                FileTransferError::new(FileTransferErrorType::UninitializedSession),
            ),
            Some(attempt) => {
                let step = advance(attempt, reply);
                self.attempt = step.next;
                match step.action {
                    ConnectAction::Established { banner, wrkdir } => {
                        self.connected = true;
                        self.wrkdir = wrkdir.clone();
                        ConnectAction::Established { banner, wrkdir }
                    },
                    action => action,
                }
            },
        }
    }

    /// The description to close the session with: `Mandi!`.
    fn disconnect(&self) -> (r: Result<String, FileTransferError>) {
        if self.connected {
            Ok(String::from_str("Mandi!"))
        } else {
            Err(FileTransferError::new(FileTransferErrorType::UninitializedSession))
        }
    }

    /// Takes in how closing the session went. Once it is closed the backend
    /// is not connected; where closing failed it still is, and the failure
    /// is a `ConnectionError` with the transport's message.
    fn disconnect_reply(&mut self, reply: Result<(), String>) -> (r: Result<
        (),
        FileTransferError,
    >)
        ensures
            final(self).keys() == old(self).keys(),
    {
        if !self.connected {
            return Err(FileTransferError::new(FileTransferErrorType::UninitializedSession));
        }
        match reply {
            Ok(_) => {
                self.connected = false;
                Ok(())
            },
            Err(detail) => Err(
                FileTransferError::new_ex(FileTransferErrorType::ConnectionError, detail),
            ),
        }
    }

    /// Whether the backend is connected.
    fn is_connected(&self) -> (r: bool) {
        self.connected
    }

    /// The working directory.
    fn pwd(&self) -> (r: Result<String, FileTransferError>) {
        if self.connected {
            Ok(self.wrkdir.clone())
        } else {
            Err(FileTransferError::new(FileTransferErrorType::UninitializedSession))
        }
    }

    /// The command that runs `cmd` as it is, in the working directory.
    fn exec(&self, cmd: &str) -> (r: Result<String, FileTransferError>) {
        self.ask(cmd)
    }

    /// Takes in what the command of `exec` wrote, and gives all of it.
    fn exec_reply(&self, cmd: &str, reply: ShellReply) -> (r: Result<String, FileTransferError>) {
        if !self.connected {
            return Err(FileTransferError::new(FileTransferErrorType::UninitializedSession));
        }
        let full = self.command(cmd);
        match shell_result(full.as_str(), reply) {
            Ok(out) => Ok(out),
            Err(e) => Err(wrap(&e)),
        }
    }

    /// Ends the sending of a file. This protocol has nothing to do then.
    fn on_sent(&self) -> (r: Result<(), FileTransferError>)
        ensures
            r is Ok,
    {
        Ok(())
    }

    /// Ends the receiving of a file. This protocol has nothing to do then.
    fn on_recv(&self) -> (r: Result<(), FileTransferError>)
        ensures
            r is Ok,
    {
        Ok(())
    }
}

/// While it is not connected, the backend answers every request, and every
/// reply that it is handed, with `UninitializedSession`, whatever it is
/// asked and whatever is known of what it is asked about: `stat` too, be
/// the path known to be a directory or not. It asks for no link to be
/// looked up, and takes no link as looked up.
pub proof fn lemma_unconnected_refuses(
    backend: ScpFileTransfer,
    command: Seq<char>,
    reply: ShellReplyView,
    denied: FileTransferErrorType,
    subject: Seq<char>,
    transfer: Result<(), String>,
    is_dir: bool,
    this_year: int,
    resolution: Option<LinkResolutionView>,
)
    requires
        !backend.connected(),
    ensures
        backend.request(command) == Err::<Seq<char>, FileTransferErrorView>(
            plain_error(FileTransferErrorType::UninitializedSession),
        ),
        backend.status(command, reply, denied, subject) == Err::<(), FileTransferErrorView>(
            plain_error(FileTransferErrorType::UninitializedSession),
        ),
        backend.change_dir_outcome(subject, reply) == Err::<Seq<char>, FileTransferErrorView>(
            plain_error(FileTransferErrorType::UninitializedSession),
        ),
        backend.transfer_outcome(transfer) == Err::<(), FileTransferErrorView>(
            plain_error(FileTransferErrorType::UninitializedSession),
        ),
        backend.stat_request(subject, is_dir) == Err::<Seq<char>, FileTransferErrorView>(
            plain_error(FileTransferErrorType::UninitializedSession),
        ),
        backend.stat_outcome(subject, reply, this_year, resolution) == Err::<
            FsEntryView,
            FileTransferErrorView,
        >(plain_error(FileTransferErrorType::UninitializedSession)),
        backend.target_resolution(subject, reply, this_year) == (LinkResolutionView {
            is_dir: false,
            entry: None,
        }),
        backend.list_dir_targets(subject, reply).len() == 0,
        backend.stat_target(subject, reply) is None,
        guarded(backend.connected(), subject) == Err::<Seq<char>, FileTransferErrorView>(
            plain_error(FileTransferErrorType::UninitializedSession),
        ),
        exec_outcome(backend.connected(), backend.cwd(), command, reply) == Err::<
            Seq<char>,
            FileTransferErrorView,
        >(plain_error(FileTransferErrorType::UninitializedSession)),
        disconnect_outcome(backend.connected(), transfer) == Err::<(), FileTransferErrorView>(
            plain_error(FileTransferErrorType::UninitializedSession),
        ),
{
}

} // verus!
