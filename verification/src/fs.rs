//! What a file system holds: files and directories, with what is known of
//! each. Times are seconds since the start of 1970; a time that is not known
//! is 0.

use vstd::prelude::*;
use crate::utils::path::file_name;

verus! {

/// A file.
#[derive(Debug, PartialEq, Eq)]
pub struct FsFile {
    /// The final component of `abs_path`.
    pub name: String,
    pub abs_path: String,
    pub last_change_time: u64,
    pub last_access_time: u64,
    pub creation_time: u64,
    /// The size in bytes.
    pub size: usize,
    /// The extension of the name, its ASCII letters in lower case.
    pub ftype: Option<String>,
    pub readonly: bool,
    /// What the entry points to, where it is a symbolic link that was resolved.
    pub symlink: Option<Box<FsEntry>>,
    pub user: Option<u32>,
    pub group: Option<u32>,
    /// Permissions of owner, group and others, each a digit from 0 to 7.
    pub unix_pex: Option<(u8, u8, u8)>,
}

/// A directory.
#[derive(Debug, PartialEq, Eq)]
pub struct FsDirectory {
    /// The final component of `abs_path`.
    pub name: String,
    pub abs_path: String,
    pub last_change_time: u64,
    pub last_access_time: u64,
    pub creation_time: u64,
    pub readonly: bool,
    /// What the entry points to, where it is a symbolic link that was resolved.
    pub symlink: Option<Box<FsEntry>>,
    pub user: Option<u32>,
    pub group: Option<u32>,
    /// Permissions of owner, group and others, each a digit from 0 to 7.
    pub unix_pex: Option<(u8, u8, u8)>,
}

/// A directory or a file.
#[derive(Debug, PartialEq, Eq)]
pub enum FsEntry {
    Directory(FsDirectory),
    File(FsFile),
}

/// A file as a value of specifications.
pub struct FsFileView {
    pub name: Seq<char>,
    pub abs_path: Seq<char>,
    pub last_change_time: u64,
    pub last_access_time: u64,
    pub creation_time: u64,
    pub size: usize,
    pub ftype: Option<Seq<char>>,
    pub readonly: bool,
    pub symlink: Option<Box<FsEntryView>>,
    pub user: Option<u32>,
    pub group: Option<u32>,
    pub unix_pex: Option<(u8, u8, u8)>,
}

/// A directory as a value of specifications.
pub struct FsDirectoryView {
    pub name: Seq<char>,
    pub abs_path: Seq<char>,
    pub last_change_time: u64,
    pub last_access_time: u64,
    pub creation_time: u64,
    pub readonly: bool,
    pub symlink: Option<Box<FsEntryView>>,
    pub user: Option<u32>,
    pub group: Option<u32>,
    pub unix_pex: Option<(u8, u8, u8)>,
}

/// An entry as a value of specifications.
pub enum FsEntryView {
    Directory(FsDirectoryView),
    File(FsFileView),
}

/// What an optional text holds.
pub open spec fn text_view(t: Option<String>) -> Option<Seq<char>> {
    match t {
        Some(s) => Some(s@),
        None => None,
    }
}

/// The value that `e` stands for.
pub open spec fn entry_view(e: FsEntry) -> FsEntryView
    decreases e,
{
    match e {
        FsEntry::Directory(d) => FsEntryView::Directory(
            FsDirectoryView {
                name: d.name@,
                abs_path: d.abs_path@,
                last_change_time: d.last_change_time,
                last_access_time: d.last_access_time,
                creation_time: d.creation_time,
                readonly: d.readonly,
                symlink: match d.symlink {
                    Some(b) => Some(Box::new(entry_view(*b))),
                    None => None,
                },
                user: d.user,
                group: d.group,
                unix_pex: d.unix_pex,
            },
        ),
        FsEntry::File(f) => FsEntryView::File(
            FsFileView {
                name: f.name@,
                abs_path: f.abs_path@,
                last_change_time: f.last_change_time,
                last_access_time: f.last_access_time,
                creation_time: f.creation_time,
                size: f.size,
                ftype: text_view(f.ftype),
                readonly: f.readonly,
                symlink: match f.symlink {
                    Some(b) => Some(Box::new(entry_view(*b))),
                    None => None,
                },
                user: f.user,
                group: f.group,
                unix_pex: f.unix_pex,
            },
        ),
    }
}

/// What an optional resolved link holds.
pub open spec fn link_view(l: Option<Box<FsEntry>>) -> Option<Box<FsEntryView>> {
    match l {
        Some(b) => Some(Box::new(entry_view(*b))),
        None => None,
    }
}

/// What an optional entry holds.
pub open spec fn optional_entry_view(e: Option<FsEntry>) -> Option<FsEntryView> {
    match e {
        Some(e) => Some(entry_view(e)),
        None => None,
    }
}

/// The values that a run of entries stands for.
pub open spec fn entries_view(v: Seq<FsEntry>) -> Seq<FsEntryView> {
    v.map_values(|e: FsEntry| entry_view(e))
}

impl View for FsEntry {
    type V = FsEntryView;

    open spec fn view(&self) -> FsEntryView {
        entry_view(*self)
    }
}

impl View for FsFile {
    type V = FsFileView;

    open spec fn view(&self) -> FsFileView {
        FsFileView {
            name: self.name@,
            abs_path: self.abs_path@,
            last_change_time: self.last_change_time,
            last_access_time: self.last_access_time,
            creation_time: self.creation_time,
            size: self.size,
            ftype: text_view(self.ftype),
            readonly: self.readonly,
            symlink: link_view(self.symlink),
            user: self.user,
            group: self.group,
            unix_pex: self.unix_pex,
        }
    }
}

impl View for FsDirectory {
    type V = FsDirectoryView;

    open spec fn view(&self) -> FsDirectoryView {
        FsDirectoryView {
            name: self.name@,
            abs_path: self.abs_path@,
            last_change_time: self.last_change_time,
            last_access_time: self.last_access_time,
            creation_time: self.creation_time,
            readonly: self.readonly,
            symlink: link_view(self.symlink),
            user: self.user,
            group: self.group,
            unix_pex: self.unix_pex,
        }
    }
}

impl FsEntryView {
    /// The absolute path of the entry.
    pub open spec fn abs_path(self) -> Seq<char> {
        match self {
            FsEntryView::Directory(d) => d.abs_path,
            FsEntryView::File(f) => f.abs_path,
        }
    }

    /// The name of the entry.
    pub open spec fn name(self) -> Seq<char> {
        match self {
            FsEntryView::Directory(d) => d.name,
            FsEntryView::File(f) => f.name,
        }
    }

    /// What the entry points to, where it is a resolved link.
    pub open spec fn symlink(self) -> Option<Box<FsEntryView>> {
        match self {
            FsEntryView::Directory(d) => d.symlink,
            FsEntryView::File(f) => f.symlink,
        }
    }

    /// The permissions of the entry.
    pub open spec fn unix_pex(self) -> Option<(u8, u8, u8)> {
        match self {
            FsEntryView::Directory(d) => d.unix_pex,
            FsEntryView::File(f) => f.unix_pex,
        }
    }

    /// The name of an entry is the final component of its path.
    pub open spec fn named_by_path(self) -> bool {
        file_name(self.abs_path()) == Some(self.name())
    }
}

/// A copy of an optional text.
fn clone_text(t: &Option<String>) -> (r: Option<String>)
    ensures
        text_view(r) == text_view(*t),
{
    match t {
        Some(s) => Some(s.clone()),
        None => None,
    }
}

/// A copy of an optional link.
fn clone_link(link: &Option<Box<FsEntry>>) -> (r: Option<Box<FsEntry>>)
    ensures
        link_view(r) == link_view(*link),
    decreases link,
{
    match link {
        Some(b) => Some(Box::new(clone_entry(&**b))),
        None => None,
    }
}

/// A copy of an entry.
fn clone_entry(entry: &FsEntry) -> (r: FsEntry)
    ensures
        r@ == entry@,
    decreases entry,
{
    match entry {
        FsEntry::Directory(d) => FsEntry::Directory(
            FsDirectory {
                name: d.name.clone(),
                abs_path: d.abs_path.clone(),
                last_change_time: d.last_change_time,
                last_access_time: d.last_access_time,
                creation_time: d.creation_time,
                readonly: d.readonly,
                symlink: clone_link(&d.symlink),
                user: d.user,
                group: d.group,
                unix_pex: d.unix_pex,
            },
        ),
        FsEntry::File(f) => FsEntry::File(
            FsFile {
                name: f.name.clone(),
                abs_path: f.abs_path.clone(),
                last_change_time: f.last_change_time,
                last_access_time: f.last_access_time,
                creation_time: f.creation_time,
                size: f.size,
                ftype: clone_text(&f.ftype),
                readonly: f.readonly,
                symlink: clone_link(&f.symlink),
                user: f.user,
                group: f.group,
                unix_pex: f.unix_pex,
            },
        ),
    }
}

impl Clone for FsEntry {
    fn clone(&self) -> (r: Self)
        ensures
            r@ == self@,
    {
        clone_entry(self)
    }
}

impl Clone for FsFile {
    fn clone(&self) -> (r: Self)
        ensures
            r@ == self@,
    {
        FsFile {
            name: self.name.clone(),
            abs_path: self.abs_path.clone(),
            last_change_time: self.last_change_time,
            last_access_time: self.last_access_time,
            creation_time: self.creation_time,
            size: self.size,
            ftype: clone_text(&self.ftype),
            readonly: self.readonly,
            symlink: clone_link(&self.symlink),
            user: self.user,
            group: self.group,
            unix_pex: self.unix_pex,
        }
    }
}

impl Clone for FsDirectory {
    fn clone(&self) -> (r: Self)
        ensures
            r@ == self@,
    {
        FsDirectory {
            name: self.name.clone(),
            abs_path: self.abs_path.clone(),
            last_change_time: self.last_change_time,
            last_access_time: self.last_access_time,
            creation_time: self.creation_time,
            readonly: self.readonly,
            symlink: clone_link(&self.symlink),
            user: self.user,
            group: self.group,
            unix_pex: self.unix_pex,
        }
    }
}

impl FsEntry {
    /// The absolute path of the entry.
    pub fn get_abs_path(&self) -> (r: String)
        ensures
            r@ == self@.abs_path(),
    {
        match self {
            FsEntry::Directory(d) => d.abs_path.clone(),
            FsEntry::File(f) => f.abs_path.clone(),
        }
    }

    /// The name of the entry.
    pub fn get_name(&self) -> (r: String)
        ensures
            r@ == self@.name(),
    {
        match self {
            FsEntry::Directory(d) => d.name.clone(),
            FsEntry::File(f) => f.name.clone(),
        }
    }

    /// Whether the entry is a directory.
    pub fn is_dir(&self) -> (r: bool)
        ensures
            r == (self@ is Directory),
    {
        match self {
            FsEntry::Directory(_) => true,
            FsEntry::File(_) => false,
        }
    }

    /// Whether the entry is a file.
    pub fn is_file(&self) -> (r: bool)
        ensures
            r == (self@ is File),
    {
        match self {
            FsEntry::Directory(_) => false,
            FsEntry::File(_) => true,
        }
    }
}

} // verus!
