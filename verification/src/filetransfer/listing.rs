//! Long listings as `ls -l` prints them: one line per entry, with its kind,
//! permissions, owner, size, time and name. A line is cut into its columns by
//! a regular expression; what the columns mean is decided here.

use vstd::prelude::*;
use regex::Regex;
use crate::filetransfer::pex::{pex_digit, pex_of_chars, pex_of_text};
use crate::fs::{
    entries_view, optional_entry_view, text_view, FsDirectory, FsDirectoryView, FsEntry,
    FsEntryView, FsFile, FsFileView,
};
use crate::utils::parser::{lstime, lstime_of};
use crate::utils::path::{
    extension, extension_of, file_name, file_name_or_empty, final_component, join, join_paths,
    lemma_joined_name,
};
use crate::utils::text::{
    chars_of, find, find_text, lines, lower_all, lowered, parse_u32, parse_unsigned, parse_usize,
    same, slice_of, split_lines, string_of, strings_view, texts,
};

verus! {

/// The pattern of a line of a long listing. Its eight groups are the kind of
/// the entry, its permissions, the number of its links, its owner, its
/// group, its size, its time and its name. The permissions are any nine
/// characters that are not white space: which letter stands where is of no
/// account to the reading of them.
pub const LS_PATTERN: &'static str =
    r#"^([\-ld])(\S{9})\s+(\d+)\s+(\w+)\s+(\w+)\s+(\d+)\s+(\w{3}\s+\d{1,2}\s+(?:\d{1,2}:\d{1,2}|\d{4}))\s+(.+)$"#;

/// What the regular expression `pattern` captures in `haystack`: the groups
/// of its leftmost match, the whole match first, with no text for a group
/// that took no part in the match. There is no value where the pattern is no
/// valid expression or matches nowhere.
pub uninterp spec fn regex_captures(pattern: Seq<char>, haystack: Seq<char>) -> Option<
    Seq<Option<Seq<char>>>,
>;

/// The texts of captured groups.
pub open spec fn groups_view(groups: Option<Vec<Option<String>>>) -> Option<
    Seq<Option<Seq<char>>>,
> {
    match groups {
        Some(v) => Some(v@.map_values(|t: Option<String>| text_view(t))),
        None => None,
    }
}

/// `regex::Regex::captures`, on the expression that `regex::Regex::new`
/// compiles from `pattern`: the text of each group of the leftmost match in
/// `haystack`. The contract only names this result; it says nothing of what
/// a given pattern matches.
#[verifier::external_body]
fn captures(pattern: &str, haystack: &str) -> (r: Option<Vec<Option<String>>>)
    ensures
        groups_view(r) == regex_captures(pattern@, haystack@),
{
    let re = Regex::new(pattern).ok()?;
    let caps = re.captures(haystack)?;
    Some((0..caps.len()).map(|i| caps.get(i).map(|m| m.as_str().to_string())).collect())
}

/// The columns of a line of a listing.
#[derive(Debug)]
pub struct LsTokens {
    /// `-` for a file, `d` for a directory, `l` for a symbolic link.
    pub kind: String,
    pub pex: String,
    pub links: String,
    pub user: String,
    pub group: String,
    pub size: String,
    pub mtime: String,
    /// The name; for a link the name, an arrow and what it points to.
    pub name: String,
}

/// The columns of a line as a value of specifications.
pub struct LsTokensView {
    pub kind: Seq<char>,
    pub pex: Seq<char>,
    pub links: Seq<char>,
    pub user: Seq<char>,
    pub group: Seq<char>,
    pub size: Seq<char>,
    pub mtime: Seq<char>,
    pub name: Seq<char>,
}

impl View for LsTokens {
    type V = LsTokensView;

    open spec fn view(&self) -> LsTokensView {
        LsTokensView {
            kind: self.kind@,
            pex: self.pex@,
            links: self.links@,
            user: self.user@,
            group: self.group@,
            size: self.size@,
            mtime: self.mtime@,
            name: self.name@,
        }
    }
}

/// The columns that captured groups hold: groups 1 to 8, where all of them
/// took part in the match.
pub open spec fn tokens_of(groups: Option<Seq<Option<Seq<char>>>>) -> Option<LsTokensView> {
    match groups {
        None => None,
        Some(g) => if g.len() >= 9 && (forall|i: int| 1 <= i <= 8 ==> (#[trigger] g[i]) is Some) {
            Some(
                LsTokensView {
                    kind: g[1]->0,
                    pex: g[2]->0,
                    links: g[3]->0,
                    user: g[4]->0,
                    group: g[5]->0,
                    size: g[6]->0,
                    mtime: g[7]->0,
                    name: g[8]->0,
                },
            )
        } else {
            None
        },
    }
}

/// The columns of `line`, where it is a line of a long listing.
pub open spec fn line_tokens(line: Seq<char>) -> Option<LsTokensView> {
    tokens_of(regex_captures(LS_PATTERN@, line))
}

/// A copy of group `i`, where it took part in the match.
fn group(groups: &Vec<Option<String>>, i: usize) -> (r: Option<String>)
    requires
        i < groups.len(),
    ensures
        text_view(r) == text_view(groups@[i as int]),
{
    match &groups[i] {
        Some(s) => Some(s.clone()),
        None => None,
    }
}

/// Cuts a line of a long listing into its columns. A line that does not
/// have the form of one has none.
pub fn tokenize(line: &str) -> (r: Option<LsTokens>)
    ensures
        r is Some == line_tokens(line@) is Some,
        r is Some ==> r->0@ == line_tokens(line@)->0,
{
    let groups = match captures(LS_PATTERN, line) {
        None => {
            return None;
        },
        Some(g) => g,
    };
    let ghost g = groups@.map_values(|t: Option<String>| text_view(t));
    if groups.len() < 9 {
        return None;
    }
    assert(forall|i: int| 0 <= i < 9 ==> g[i] == text_view(groups@[i]));
    match (
        group(&groups, 1),
        group(&groups, 2),
        group(&groups, 3),
        group(&groups, 4),
        group(&groups, 5),
        group(&groups, 6),
        group(&groups, 7),
        group(&groups, 8),
    ) {
        (
            Some(kind),
            Some(pex),
            Some(links),
            Some(user),
            Some(group),
            Some(size),
            Some(mtime),
            Some(name),
        ) => {
            assert forall|i: int| 1 <= i <= 8 implies (#[trigger] g[i]) is Some by {
                assert(g[i] == text_view(groups@[i]));
            }
            Some(LsTokens { kind, pex, links, user, group, size, mtime, name })
        },
        _ => {
            assert(!(forall|i: int| 1 <= i <= 8 ==> (#[trigger] g[i]) is Some)) by {
                if g[1] is None {
                } else if g[2] is None {
                } else if g[3] is None {
                } else if g[4] is None {
                } else if g[5] is None {
                } else if g[6] is None {
                } else if g[7] is None {
                } else {
                    assert(g[8] is None);
                }
            }
            None
        },
    }
}

/// What the first column of a line says the entry is.
#[derive(Clone, Copy, Debug, PartialEq, Eq, Structural)]
pub enum LsKind {
    File,
    Link,
    Directory,
}

/// The kind that the first column shows: `-` a file, `l` a symbolic link,
/// `d` a directory, anything else nothing that is listed.
pub open spec fn kind_of(flag: Seq<char>) -> Option<LsKind> {
    if flag.len() != 1 {
        None
    } else if flag[0] == '-' {
        Some(LsKind::File)
    } else if flag[0] == 'l' {
        Some(LsKind::Link)
    } else if flag[0] == 'd' {
        Some(LsKind::Directory)
    } else {
        None
    }
}

/// The arrow between the name of a link and what it points to.
pub open spec fn arrow() -> Seq<char> {
    seq![' ', '-', '>', ' ']
}

/// A name column cut at its first arrow: the name of the link, and what
/// follows the arrow, if there is an arrow.
pub open spec fn link_parts(token: Seq<char>) -> (Seq<char>, Option<Seq<char>>) {
    match find(token, arrow()) {
        Some(i) => (token.take(i), Some(token.skip(i + 4))),
        None => (token, None),
    }
}

/// The names `.` and `..`, which stand for no entry of their own.
pub open spec fn is_dot_name(name: Seq<char>) -> bool {
    (name.len() == 1 && name[0] == '.') || (name.len() == 2 && name[0] == '.' && name[1] == '.')
}

/// The name that a line gives its entry: for a link what stands before the
/// arrow, else the whole name column.
pub open spec fn listed_name(t: LsTokensView) -> Seq<char> {
    if kind_of(t.kind) == Some(LsKind::Link) {
        link_parts(t.name).0
    } else {
        t.name
    }
}

/// What a line says its entry points to, where it is a link with an arrow.
pub open spec fn listed_target(t: LsTokensView) -> Option<Seq<char>> {
    if kind_of(t.kind) == Some(LsKind::Link) {
        link_parts(t.name).1
    } else {
        None
    }
}

/// Whether the columns stand for an entry of the directory `path`: the kind
/// is one of the three, the permissions have their nine characters, the name
/// is neither empty nor `.` nor `..`, and joined to `path` it has a final
/// component.
pub open spec fn is_listed(path: Seq<char>, t: LsTokensView) -> bool {
    &&& kind_of(t.kind) is Some
    &&& t.pex.len() >= 9
    &&& listed_name(t).len() > 0
    &&& !is_dot_name(listed_name(t))
    &&& file_name(join(path, listed_name(t))) is Some
}

/// What has to be looked up before the entry of a line can be built: the
/// target of a listed link, unless its final component is the link's own
/// name.
pub open spec fn link_to_resolve(path: Seq<char>, t: LsTokensView) -> Option<Seq<char>> {
    match listed_target(t) {
        Some(target) => if is_listed(path, t) && file_name_or_empty(target) != listed_name(t) {
            Some(target)
        } else {
            None
        },
        None => None,
    }
}

/// What looking up the target of a link gave.
#[derive(Debug, PartialEq, Eq)]
pub struct LinkResolution {
    /// Whether the target is a directory.
    pub is_dir: bool,
    /// The target's own entry, where it could be read.
    pub entry: Option<FsEntry>,
}

/// A looked-up link as a value of specifications.
pub struct LinkResolutionView {
    pub is_dir: bool,
    pub entry: Option<FsEntryView>,
}

impl View for LinkResolution {
    type V = LinkResolutionView;

    open spec fn view(&self) -> LinkResolutionView {
        LinkResolutionView { is_dir: self.is_dir, entry: optional_entry_view(self.entry) }
    }
}

impl LinkResolution {
    /// A link of whose target nothing could be learned.
    pub fn unresolved() -> (r: LinkResolution)
        ensures
            r@ == (LinkResolutionView { is_dir: false, entry: None }),
    {
        LinkResolution { is_dir: false, entry: None }
    }
}

/// What an optional looked-up link holds.
pub open spec fn resolution_view(r: Option<LinkResolution>) -> Option<LinkResolutionView> {
    match r {
        Some(r) => Some(r@),
        None => None,
    }
}

/// An optional number, 0 where there is none.
pub open spec fn or_zero(n: Option<int>) -> int {
    match n {
        Some(n) => n,
        None => 0,
    }
}

/// An optional number as one of 32 bits.
pub open spec fn as_id(n: Option<int>) -> Option<u32> {
    match n {
        Some(n) => Some(n as u32),
        None => None,
    }
}

/// An optional entry in a box.
pub open spec fn boxed(e: Option<FsEntryView>) -> Option<Box<FsEntryView>> {
    match e {
        Some(e) => Some(Box::new(e)),
        None => None,
    }
}

/// An optional extension in lower case.
pub open spec fn lowered_extension(path: Seq<char>) -> Option<Seq<char>> {
    match extension(path) {
        Some(e) => Some(lowered(e)),
        None => None,
    }
}

/// The entry that the columns `t` of a line stand for in the directory
/// `path`. `resolution` is what looking up the link gave, where
/// `link_to_resolve` asked for it; without it the link stays unresolved.
///
/// The path of the entry is the listed name joined to `path`, and its name
/// the final component of that path. A `d` makes a directory, a `-` a file,
/// and an `l` a file unless the looked-up target is a directory; a link
/// that was looked up holds the entry of its target. The three times are
/// the time column read in `this_year`, or 0 where it is no time. Owner and
/// group are numbers where their columns are, and the permissions are read
/// off theirs. The size of a file is its column, or 0 where that is no
/// number that fits; its type is the extension of its path, the ASCII
/// letters in lower case.
pub open spec fn entry_of(
    path: Seq<char>,
    t: LsTokensView,
    this_year: int,
    resolution: Option<LinkResolutionView>,
) -> Option<FsEntryView> {
    if !is_listed(path, t) {
        None
    } else {
        let abs_path = join(path, listed_name(t));
        let name = file_name(abs_path)->0;
        let resolved = link_to_resolve(path, t) is Some && resolution is Some;
        let is_dir = kind_of(t.kind) == Some(LsKind::Directory) || (resolved
            && resolution->0.is_dir);
        let symlink = if resolved {
            boxed(resolution->0.entry)
        } else {
            None
        };
        let mtime = or_zero(lstime(t.mtime, this_year)) as u64;
        let user = as_id(parse_unsigned(t.user, u32::MAX as int));
        let group = as_id(parse_unsigned(t.group, u32::MAX as int));
        let pex = pex_of_text(t.pex)->0;
        let unix_pex = Some((pex.0 as u8, pex.1 as u8, pex.2 as u8));
        if is_dir {
            Some(
                FsEntryView::Directory(
                    FsDirectoryView {
                        name,
                        abs_path,
                        last_change_time: mtime,
                        last_access_time: mtime,
                        creation_time: mtime,
                        readonly: false,
                        symlink,
                        user,
                        group,
                        unix_pex,
                    },
                ),
            )
        } else {
            Some(
                FsEntryView::File(
                    FsFileView {
                        name,
                        abs_path,
                        last_change_time: mtime,
                        last_access_time: mtime,
                        creation_time: mtime,
                        size: or_zero(parse_unsigned(t.size, usize::MAX as int)) as usize,
                        ftype: lowered_extension(abs_path),
                        readonly: false,
                        symlink,
                        user,
                        group,
                        unix_pex,
                    },
                ),
            )
        }
    }
}

/// Reads the first column of a line.
fn kind_from(flag: &Vec<char>) -> (r: Option<LsKind>)
    ensures
        r == kind_of(flag@),
{
    if flag.len() != 1 {
        None
    } else if flag[0] == '-' {
        Some(LsKind::File)
    } else if flag[0] == 'l' {
        Some(LsKind::Link)
    } else if flag[0] == 'd' {
        Some(LsKind::Directory)
    } else {
        None
    }
}

/// Cuts a name column at its first arrow.
fn split_link(token: &Vec<char>) -> (r: (Vec<char>, Option<Vec<char>>))
    ensures
        r.0@ == link_parts(token@).0,
        r.1 is Some == link_parts(token@).1 is Some,
        r.1 is Some ==> r.1->0@ == link_parts(token@).1->0,
{
    let pat: Vec<char> = vec![' ', '-', '>', ' '];
    assert(pat@ =~= arrow());
    match find_text(token, &pat) {
        Some(i) => {
            let end: usize = token.len();
            assert(pat@.len() == 4);
            assert(i + 4 <= end);
            assert(token@.take(i as int) =~= token@.subrange(0, i as int));
            assert(token@.skip(i + 4) =~= token@.subrange(i + 4, end as int));
            (slice_of(token, 0, i), Some(slice_of(token, i + 4, end)))
        },
        None => {
            assert(token@.subrange(0, token@.len() as int) =~= token@);
            (slice_of(token, 0, token.len()), None)
        },
    }
}

/// Tells whether `name` is `.` or `..`.
fn dot_name(name: &Vec<char>) -> (r: bool)
    ensures
        r == is_dot_name(name@),
{
    (name.len() == 1 && name[0] == '.') || (name.len() == 2 && name[0] == '.' && name[1] == '.')
}

/// What the columns of one line come to, before any link is looked up.
struct Listed {
    kind: LsKind,
    name: Vec<char>,
    abs_path: Vec<char>,
    target: Option<Vec<char>>,
    pex: (u8, u8, u8),
}

/// Reads kind, name, path and permissions off the columns of a line, where
/// they stand for an entry.
fn listed(path: &Vec<char>, tokens: &LsTokens) -> (r: Option<Listed>)
    ensures
        r is Some == is_listed(path@, tokens@),
        r matches Some(l) ==> {
            &&& Some(l.kind) == kind_of(tokens@.kind)
            &&& l.abs_path@ == join(path@, listed_name(tokens@))
            &&& Some(l.name@) == file_name(l.abs_path@)
            &&& l.target is Some == link_to_resolve(path@, tokens@) is Some
            &&& l.target is Some ==> l.target->0@ == link_to_resolve(path@, tokens@)->0
            &&& (l.pex.0 as int, l.pex.1 as int, l.pex.2 as int) == pex_of_text(tokens@.pex)->0
            &&& l.pex.0 <= 7 && l.pex.1 <= 7 && l.pex.2 <= 7
        },
{
    let flag = chars_of(tokens.kind.as_str());
    let kind = match kind_from(&flag) {
        None => {
            return None;
        },
        Some(k) => k,
    };
    let pex_text = chars_of(tokens.pex.as_str());
    let pex = match pex_of_chars(&pex_text) {
        None => {
            return None;
        },
        Some(p) => p,
    };
    let token = chars_of(tokens.name.as_str());
    let (name_token, target) = match kind {
        LsKind::Link => split_link(&token),
        _ => (token, None),
    };
    assert(name_token@ == listed_name(tokens@));
    if name_token.len() == 0 || dot_name(&name_token) {
        return None;
    }
    let abs_path = join_paths(path, &name_token);
    let name = match final_component(&abs_path) {
        None => {
            return None;
        },
        Some(n) => n,
    };
    let target: Option<Vec<char>> = match target {
        None => None,
        Some(t) => {
            let last = match final_component(&t) {
                Some(n) => n,
                None => Vec::new(),
            };
            if same(&last, &name_token) {
                None
            } else {
                Some(t)
            }
        },
    };
    Some(Listed { kind, name, abs_path, target, pex })
}

/// The target that has to be looked up before the entry of these columns
/// can be built, if there is one.
pub fn link_target(path: &str, tokens: &LsTokens) -> (r: Option<String>)
    ensures
        text_view(r) == link_to_resolve(path@, tokens@),
{
    let dir = chars_of(path);
    match listed(&dir, tokens) {
        None => None,
        Some(l) => match l.target {
            Some(t) => Some(string_of(&t)),
            None => None,
        },
    }
}

/// Builds the entry that the columns of a line stand for in the directory
/// `path`; see `entry_of`. There is none where the columns stand for no
/// entry.
pub fn entry_from_tokens(
    path: &str,
    tokens: &LsTokens,
    this_year: u32,
    resolution: Option<LinkResolution>,
) -> (r: Result<FsEntry, ()>)
    ensures
        r is Ok == is_listed(path@, tokens@),
        r is Ok == entry_of(path@, tokens@, this_year as int, resolution_view(resolution)) is Some,
        r matches Ok(e) ==> {
            &&& e@ == entry_of(path@, tokens@, this_year as int, resolution_view(resolution))->0
            &&& e@.named_by_path()
        },
{
    let dir = chars_of(path);
    let l = match listed(&dir, tokens) {
        None => {
            return Err(());
        },
        Some(l) => l,
    };
    let mtime: u64 = match lstime_of(&chars_of(tokens.mtime.as_str()), this_year) {
        Some(t) => t,
        None => 0,
    };
    let user: Option<u32> = parse_u32(&chars_of(tokens.user.as_str()));
    let group: Option<u32> = parse_u32(&chars_of(tokens.group.as_str()));
    let (link_is_dir, symlink): (bool, Option<Box<FsEntry>>) = match (&l.target, resolution) {
        (Some(_), Some(found)) => (
            found.is_dir,
            match found.entry {
                Some(e) => Some(Box::new(e)),
                None => None,
            },
        ),
        _ => (false, None),
    };
    let is_dir: bool = match l.kind {
        LsKind::Directory => true,
        _ => link_is_dir,
    };
    if is_dir {
        Ok(
            FsEntry::Directory(
                FsDirectory {
                    name: string_of(&l.name),
                    abs_path: string_of(&l.abs_path),
                    last_change_time: mtime,
                    last_access_time: mtime,
                    creation_time: mtime,
                    readonly: false,
                    symlink,
                    user,
                    group,
                    unix_pex: Some(l.pex),
                },
            ),
        )
    } else {
        let size: usize = match parse_usize(&chars_of(tokens.size.as_str())) {
            Some(n) => n,
            None => 0,
        };
        let ftype: Option<String> = match extension_of(&l.abs_path) {
            Some(e) => Some(string_of(&lower_all(&e))),
            None => None,
        };
        Ok(
            FsEntry::File(
                FsFile {
                    name: string_of(&l.name),
                    abs_path: string_of(&l.abs_path),
                    last_change_time: mtime,
                    last_access_time: mtime,
                    creation_time: mtime,
                    size,
                    ftype,
                    readonly: false,
                    symlink,
                    user,
                    group,
                    unix_pex: Some(l.pex),
                },
            ),
        )
    }
}

/// What has to be looked up before the entry of `line` can be built.
pub open spec fn line_target(path: Seq<char>, line: Seq<char>) -> Option<Seq<char>> {
    match line_tokens(line) {
        Some(t) => link_to_resolve(path, t),
        None => None,
    }
}

/// The entry that `line` stands for in the directory `path`.
pub open spec fn line_entry(
    path: Seq<char>,
    line: Seq<char>,
    this_year: int,
    resolution: Option<LinkResolutionView>,
) -> Option<FsEntryView> {
    match line_tokens(line) {
        Some(t) => entry_of(path, t, this_year, resolution),
        None => None,
    }
}

/// Builds the entry that a line of a long listing stands for in the
/// directory `path`. There is none where the line has not the form of one,
/// or its columns stand for no entry.
pub fn parse_ls_output(
    path: &str,
    line: &str,
    this_year: u32,
    resolution: Option<LinkResolution>,
) -> (r: Result<FsEntry, ()>)
    ensures
        r is Ok == line_entry(path@, line@, this_year as int, resolution_view(resolution)) is Some,
        r matches Ok(e) ==> {
            &&& e@ == line_entry(path@, line@, this_year as int, resolution_view(resolution))->0
            &&& e@.named_by_path()
        },
{
    match tokenize(line) {
        Some(tokens) => entry_from_tokens(path, &tokens, this_year, resolution),
        None => Err(()),
    }
}

/// The targets that the lines ask to look up, in the order of the lines.
pub open spec fn targets(path: Seq<char>, lines: Seq<Seq<char>>) -> Seq<Seq<char>>
    decreases lines.len(),
{
    if lines.len() == 0 {
        Seq::empty()
    } else {
        let rest = targets(path, lines.drop_first());
        match line_target(path, lines[0]) {
            Some(t) => seq![t] + rest,
            None => rest,
        }
    }
}

/// The entries that the lines stand for, in the order of the lines. Lines
/// that stand for no entry are passed over. Each line that asks for a target
/// takes the next of `found`, as long as there is one.
pub open spec fn listed_entries(
    path: Seq<char>,
    lines: Seq<Seq<char>>,
    this_year: int,
    found: Seq<LinkResolutionView>,
) -> Seq<FsEntryView>
    decreases lines.len(),
{
    if lines.len() == 0 {
        Seq::empty()
    } else {
        let takes = line_target(path, lines[0]) is Some && found.len() > 0;
        let given = if takes {
            Some(found[0])
        } else {
            None
        };
        let left = if takes {
            found.drop_first()
        } else {
            found
        };
        let rest = listed_entries(path, lines.drop_first(), this_year, left);
        match line_entry(path, lines[0], this_year, given) {
            Some(e) => seq![e] + rest,
            None => rest,
        }
    }
}

/// The values that a run of looked-up links stands for.
pub open spec fn resolutions_view(v: Seq<LinkResolution>) -> Seq<LinkResolutionView> {
    v.map_values(|r: LinkResolution| r@)
}

/// The targets that a listing asks to look up before its entries can be
/// built, in the order of its lines.
pub fn link_targets(path: &str, output: &str) -> (r: Vec<String>)
    ensures
        strings_view(r@) == targets(path@, lines(output@)),
{
    let all = split_lines(&chars_of(output));
    let ghost ls = lines(output@);
    let mut out: Vec<String> = Vec::new();
    let mut i: usize = 0;
    assert(ls.skip(0) =~= ls);
    assert(strings_view(out@) =~= Seq::<Seq<char>>::empty());
    while i < all.len()
        invariant
            i <= all.len(),
            texts(all@) == ls,
            targets(path@, ls) == strings_view(out@) + targets(path@, ls.skip(i as int)),
        decreases all.len() - i,
    {
        let line = string_of(&all[i]);
        let ghost rest = ls.skip(i as int);
        let ghost before = strings_view(out@);
        assert(rest[0] == ls[i as int]);
        assert(ls[i as int] == all@[i as int]@);
        assert(rest.drop_first() =~= ls.skip(i + 1));
        match tokenize(line.as_str()) {
            Some(tokens) => match link_target(path, &tokens) {
                Some(t) => {
                    out.push(t);
                    assert(strings_view(out@) =~= before + seq![t@]);
                    assert(targets(path@, ls) =~= strings_view(out@) + targets(
                        path@,
                        ls.skip(i + 1),
                    ));
                },
                None => {},
            },
            None => {},
        }
        i += 1;
    }
    assert(ls.skip(i as int) =~= Seq::<Seq<char>>::empty());
    assert(targets(path@, ls) =~= strings_view(out@));
    out
}

/// A copy of a looked-up link.
fn copy_resolution(found: &LinkResolution) -> (r: LinkResolution)
    ensures
        r@ == found@,
{
    LinkResolution {
        is_dir: found.is_dir,
        entry: match &found.entry {
            Some(e) => Some(e.clone()),
            None => None,
        },
    }
}

/// Builds the entries of the directory `path` from its long listing. Lines
/// that stand for no entry are passed over; the entries come in the order of
/// their lines. `found` holds what looking up the targets of `link_targets`
/// gave, in their order.
pub fn parse_listing(path: &str, output: &str, this_year: u32, found: &Vec<LinkResolution>) -> (r:
    Vec<FsEntry>)
    ensures
        entries_view(r@) == listed_entries(
            path@,
            lines(output@),
            this_year as int,
            resolutions_view(found@),
        ),
        forall|i: int| 0 <= i < r.len() ==> (#[trigger] r[i])@.named_by_path(),
{
    let all = split_lines(&chars_of(output));
    let ghost ls = lines(output@);
    let ghost given = resolutions_view(found@);
    let mut out: Vec<FsEntry> = Vec::new();
    let mut i: usize = 0;
    let mut used: usize = 0;
    assert(ls.skip(0) =~= ls);
    assert(given.skip(0) =~= given);
    assert(entries_view(out@) =~= Seq::<FsEntryView>::empty());
    while i < all.len()
        invariant
            i <= all.len(),
            used <= found.len(),
            texts(all@) == ls,
            given == resolutions_view(found@),
            listed_entries(path@, ls, this_year as int, given) == entries_view(out@)
                + listed_entries(path@, ls.skip(i as int), this_year as int, given.skip(used as int)),
            forall|k: int| 0 <= k < out.len() ==> (#[trigger] out[k])@.named_by_path(),
        decreases all.len() - i,
    {
        let line = string_of(&all[i]);
        let ghost rest = ls.skip(i as int);
        let ghost left = given.skip(used as int);
        let ghost before = entries_view(out@);
        let ghost before_entries = out@;
        assert(rest[0] == ls[i as int]);
        assert(ls[i as int] == all@[i as int]@);
        assert(rest.drop_first() =~= ls.skip(i + 1));
        match tokenize(line.as_str()) {
            Some(tokens) => {
                let asks: bool = link_target(path, &tokens).is_some();
                let resolution: Option<LinkResolution> = if asks && used < found.len() {
                    assert(left[0] == given[used as int]);
                    assert(given[used as int] == found@[used as int]@);
                    assert(left.drop_first() =~= given.skip(used + 1));
                    let r = copy_resolution(&found[used]);
                    used += 1;
                    Some(r)
                } else {
                    None
                };
                match entry_from_tokens(path, &tokens, this_year, resolution) {
                    Ok(e) => {
                        out.push(e);
                        assert(entries_view(out@) =~= before + seq![e@]);
                        assert forall|k: int| 0 <= k < out.len() implies (#[trigger] out[k])@.named_by_path() by {
                            if k < before_entries.len() {
                                assert(out[k] == before_entries[k]);
                            }
                        }
                        assert(listed_entries(path@, ls, this_year as int, given) =~= entries_view(
                            out@,
                        ) + listed_entries(
                            path@,
                            ls.skip(i + 1),
                            this_year as int,
                            given.skip(used as int),
                        ));
                    },
                    Err(_) => {},
                }
            },
            None => {},
        }
        i += 1;
    }
    assert(ls.skip(i as int) =~= Seq::<Seq<char>>::empty());
    assert(listed_entries(path@, ls, this_year as int, given) =~= entries_view(out@));
    out
}

/// The first column alone decides between file and directory for `-` and
/// `d`; for `l` the looked-up target decides. Columns whose name is `.` or
/// `..` stand for no entry.
pub proof fn lemma_kind_selects_entry(
    path: Seq<char>,
    t: LsTokensView,
    this_year: int,
    resolution: Option<LinkResolutionView>,
)
    ensures
        is_dot_name(listed_name(t)) ==> entry_of(path, t, this_year, resolution) is None,
        entry_of(path, t, this_year, resolution) matches Some(e) ==> {
            &&& kind_of(t.kind) == Some(LsKind::File) ==> e is File
            &&& kind_of(t.kind) == Some(LsKind::Directory) ==> e is Directory
            &&& kind_of(t.kind) == Some(LsKind::Link) ==> (e is Directory <==> link_to_resolve(
                path,
                t,
            ) is Some && resolution is Some && resolution->0.is_dir)
        },
{
}

/// Columns of the kind `-` or `d`, with nine characters or more of
/// permissions and a name other than `.` and `..`, stand for an entry
/// wherever the name, joined to the directory, has a final component: a
/// file for `-`, a directory for `d`, whatever else the columns hold.
pub proof fn lemma_flag_selects_kind(
    path: Seq<char>,
    t: LsTokensView,
    this_year: int,
    resolution: Option<LinkResolutionView>,
)
    requires
        kind_of(t.kind) == Some(LsKind::File) || kind_of(t.kind) == Some(LsKind::Directory),
        t.pex.len() >= 9,
        t.name.len() > 0,
        !is_dot_name(t.name),
        file_name(join(path, t.name)) is Some,
    ensures
        entry_of(path, t, this_year, resolution) is Some,
        entry_of(path, t, this_year, resolution)->0 is File <==> kind_of(t.kind) == Some(
            LsKind::File,
        ),
        entry_of(path, t, this_year, resolution)->0 is Directory <==> kind_of(t.kind) == Some(
            LsKind::Directory,
        ),
{
}

/// A name without a slash in it always has a final component once it is
/// joined to a directory, so that the columns of every entry that a
/// directory holds stand for an entry.
pub proof fn lemma_plain_columns_are_listed(
    path: Seq<char>,
    t: LsTokensView,
    this_year: int,
    resolution: Option<LinkResolutionView>,
)
    requires
        kind_of(t.kind) == Some(LsKind::File) || kind_of(t.kind) == Some(LsKind::Directory),
        t.pex.len() >= 9,
        t.name.len() > 0,
        !is_dot_name(t.name),
        forall|k: int| 0 <= k < t.name.len() ==> t.name[k] != '/',
    ensures
        entry_of(path, t, this_year, resolution) is Some,
        entry_of(path, t, this_year, resolution)->0.name() == t.name,
        entry_of(path, t, this_year, resolution)->0.abs_path() == join(path, t.name),
{
    if t.name == seq!['.'] {
        assert(seq!['.'].len() == 1 && seq!['.'][0] == '.');
    }
    if t.name == seq!['.', '.'] {
        assert(seq!['.', '.'].len() == 2 && seq!['.', '.'][0] == '.' && seq!['.', '.'][1] == '.');
    }
    lemma_joined_name(path, t.name);
}

/// Every entry of a listing shows the permissions that its columns hold:
/// for owner, group and others 4 for the first, 2 for the second and 1 for
/// the third character, each counted unless it is a dash, whatever letter
/// it is. Each digit is at most 7.
pub proof fn lemma_entry_shows_permissions(
    path: Seq<char>,
    t: LsTokensView,
    this_year: int,
    resolution: Option<LinkResolutionView>,
)
    requires
        entry_of(path, t, this_year, resolution) is Some,
    ensures
        entry_of(path, t, this_year, resolution)->0.unix_pex() matches Some((owner, group, others))
            && owner as int == pex_digit(t.pex, 0) && group as int == pex_digit(t.pex, 3)
            && others as int == pex_digit(t.pex, 6) && owner <= 7 && group <= 7 && others <= 7,
{
}

/// An entry whose name column holds no slash carries that name, and lies
/// right in the directory that was listed.
pub proof fn lemma_entry_keeps_listed_name(
    path: Seq<char>,
    t: LsTokensView,
    this_year: int,
    resolution: Option<LinkResolutionView>,
)
    requires
        entry_of(path, t, this_year, resolution) is Some,
        forall|k: int| 0 <= k < listed_name(t).len() ==> listed_name(t)[k] != '/',
    ensures
        entry_of(path, t, this_year, resolution)->0.name() == listed_name(t),
        entry_of(path, t, this_year, resolution)->0.abs_path() == join(path, listed_name(t)),
{
    let name = listed_name(t);
    if name == seq!['.'] {
        assert(seq!['.'].len() == 1 && seq!['.'][0] == '.');
    }
    if name == seq!['.', '.'] {
        assert(seq!['.', '.'].len() == 2 && seq!['.', '.'][0] == '.' && seq!['.', '.'][1] == '.');
    }
    lemma_joined_name(path, name);
}

/// The final component of a path is never `.` or `..`.
pub proof fn lemma_file_name_is_no_dot_name(p: Seq<char>)
    requires
        file_name(p) is Some,
    ensures
        !is_dot_name(file_name(p)->0),
{
    let name = file_name(p)->0;
    if name.len() == 1 && name[0] == '.' {
        assert(name =~= seq!['.']);
    }
    if name.len() == 2 && name[0] == '.' && name[1] == '.' {
        assert(name =~= seq!['.', '.']);
    }
}

/// No entry of a listing is named `.` or `..`, and each is named by the
/// final component of its path.
pub proof fn lemma_listing_has_no_dot_names(
    path: Seq<char>,
    lines: Seq<Seq<char>>,
    this_year: int,
    found: Seq<LinkResolutionView>,
)
    ensures
        forall|i: int|
            0 <= i < listed_entries(path, lines, this_year, found).len() ==> {
                let e = #[trigger] listed_entries(path, lines, this_year, found)[i];
                e.named_by_path() && !is_dot_name(e.name())
            },
    decreases lines.len(),
{
    if lines.len() > 0 {
        let takes = line_target(path, lines[0]) is Some && found.len() > 0;
        let given = if takes {
            Some(found[0])
        } else {
            None
        };
        let left = if takes {
            found.drop_first()
        } else {
            found
        };
        lemma_listing_has_no_dot_names(path, lines.drop_first(), this_year, left);
        match line_entry(path, lines[0], this_year, given) {
            Some(e) => {
                lemma_file_name_is_no_dot_name(e.abs_path());
            },
            None => {},
        }
    }
}

} // verus!
