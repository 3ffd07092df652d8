//! Removing a directory with all below it, where the protocol can only
//! remove a file or an empty directory. The library says which call to make
//! next; the caller makes it and reports how it went.
//!
//! A directory is listed, each of its entries is removed in the order of
//! the listing, directories among them in the same way, and then the
//! directory itself. The first failure ends it: what is gone by then stays
//! gone, and nothing else is touched.

use vstd::prelude::*;
use crate::filetransfer::{
    detailed_error, plain_error, FileTransferError, FileTransferErrorType, FileTransferErrorView,
};
use crate::fs::{entries_view, FsDirectoryView, FsEntry, FsEntryView, FsFileView};

verus! {

/// A directory that is being emptied, and what is still in it.
#[derive(Debug)]
pub struct Frame {
    pub dir: String,
    /// The entries still to remove, in the order of the listing.
    pub pending: Vec<FsEntry>,
}

/// The call whose outcome is awaited.
#[derive(Clone, Copy, Debug, PartialEq, Eq, Structural)]
pub enum Awaiting {
    Listing,
    Unlinking,
    RemovingDir,
}

/// A removal under way: the directories that are being emptied, the
/// outermost first, and the call that is awaited.
#[derive(Debug)]
pub struct Removal {
    pub frames: Vec<Frame>,
    pub awaiting: Awaiting,
}

/// What the caller has to do next.
#[derive(Debug, PartialEq, Eq)]
pub enum RemoveAction {
    /// List the directory at `path`, as `list_dir` does.
    List { path: String },
    /// Remove the file at `path`.
    Unlink { path: String },
    /// Remove the directory at `path`, which is empty now.
    Rmdir { path: String },
    /// The removal is over.
    Finish(Result<(), FileTransferError>),
}

/// How the call went that the last action asked for.
#[derive(Debug)]
pub enum RemoveReply {
    /// The entries of the directory.
    Listed(Vec<FsEntry>),
    /// The directory could not be listed.
    ListFailed(FileTransferError),
    /// The file or directory is gone.
    Done,
    /// The file or directory could not be removed; the transport's message.
    Failed { detail: String },
}

/// A removal that goes on, or has ended, and what the caller has to do.
#[derive(Debug)]
pub struct RemoveStep {
    pub next: Option<Removal>,
    pub action: RemoveAction,
}

/// A directory that is being emptied, as a value of specifications.
pub struct FrameView {
    pub dir: Seq<char>,
    pub pending: Seq<FsEntryView>,
}

/// A removal as a value of specifications.
pub struct RemovalView {
    pub frames: Seq<FrameView>,
    pub awaiting: Awaiting,
}

/// An action as a value of specifications.
pub enum RemoveActionView {
    List { path: Seq<char> },
    Unlink { path: Seq<char> },
    Rmdir { path: Seq<char> },
    Finish(Result<(), FileTransferErrorView>),
}

/// A reply as a value of specifications.
pub enum RemoveReplyView {
    Listed(Seq<FsEntryView>),
    ListFailed(FileTransferErrorView),
    Done,
    Failed { detail: Seq<char> },
}

/// A step as a value of specifications.
pub struct RemoveStepView {
    pub next: Option<RemovalView>,
    pub action: RemoveActionView,
}

impl View for Frame {
    type V = FrameView;

    open spec fn view(&self) -> FrameView {
        FrameView { dir: self.dir@, pending: entries_view(self.pending@) }
    }
}

/// The values that a run of frames stands for.
pub open spec fn frames_view(frames: Seq<Frame>) -> Seq<FrameView> {
    frames.map_values(|f: Frame| f@)
}

impl View for Removal {
    type V = RemovalView;

    open spec fn view(&self) -> RemovalView {
        RemovalView { frames: frames_view(self.frames@), awaiting: self.awaiting }
    }
}

impl View for RemoveAction {
    type V = RemoveActionView;

    open spec fn view(&self) -> RemoveActionView {
        match self {
            RemoveAction::List { path } => RemoveActionView::List { path: path@ },
            RemoveAction::Unlink { path } => RemoveActionView::Unlink { path: path@ },
            RemoveAction::Rmdir { path } => RemoveActionView::Rmdir { path: path@ },
            RemoveAction::Finish(r) => RemoveActionView::Finish(
                match r {
                    Ok(_) => Ok(()),
                    Err(e) => Err(e@),
                },
            ),
        }
    }
}

impl View for RemoveReply {
    type V = RemoveReplyView;

    open spec fn view(&self) -> RemoveReplyView {
        match self {
            RemoveReply::Listed(entries) => RemoveReplyView::Listed(entries_view(entries@)),
            RemoveReply::ListFailed(e) => RemoveReplyView::ListFailed(e@),
            RemoveReply::Done => RemoveReplyView::Done,
            RemoveReply::Failed { detail } => RemoveReplyView::Failed { detail: detail@ },
        }
    }
}

impl View for RemoveStep {
    type V = RemoveStepView;

    open spec fn view(&self) -> RemoveStepView {
        RemoveStepView {
            next: match self.next {
                Some(r) => Some(r@),
                None => None,
            },
            action: self.action@,
        }
    }
}

/// The end of a removal in `result`.
pub open spec fn finished(result: Result<(), FileTransferErrorView>) -> RemoveStepView {
    RemoveStepView { next: None, action: RemoveActionView::Finish(result) }
}

/// The first step of removing `entry`: a file is removed right away, a
/// directory is listed first.
pub open spec fn started(entry: FsEntryView) -> RemoveStepView {
    match entry {
        FsEntryView::File(f) => RemoveStepView {
            next: Some(RemovalView { frames: Seq::empty(), awaiting: Awaiting::Unlinking }),
            action: RemoveActionView::Unlink { path: f.abs_path },
        },
        FsEntryView::Directory(d) => RemoveStepView {
            next: Some(
                RemovalView {
                    frames: seq![FrameView { dir: d.abs_path, pending: Seq::empty() }],
                    awaiting: Awaiting::Listing,
                },
            ),
            action: RemoveActionView::List { path: d.abs_path },
        },
    }
}

/// What to do with the directories `frames` once a call has succeeded:
/// nothing more where there is none; else the next entry of the innermost
/// is removed, a file right away and a directory by listing it first; and
/// where the innermost has no entry left, it is removed itself.
pub open spec fn proceed(frames: Seq<FrameView>) -> RemoveStepView {
    if frames.len() == 0 {
        finished(Ok(()))
    } else {
        let top = frames.last();
        if top.pending.len() == 0 {
            RemoveStepView {
                next: Some(RemovalView { frames, awaiting: Awaiting::RemovingDir }),
                action: RemoveActionView::Rmdir { path: top.dir },
            }
        } else {
            let rest = frames.drop_last().push(
                FrameView { dir: top.dir, pending: top.pending.drop_first() },
            );
            match top.pending[0] {
                FsEntryView::File(f) => RemoveStepView {
                    next: Some(RemovalView { frames: rest, awaiting: Awaiting::Unlinking }),
                    action: RemoveActionView::Unlink { path: f.abs_path },
                },
                FsEntryView::Directory(d) => RemoveStepView {
                    next: Some(
                        RemovalView {
                            frames: rest.push(FrameView { dir: d.abs_path, pending: Seq::empty() }),
                            awaiting: Awaiting::Listing,
                        },
                    ),
                    action: RemoveActionView::List { path: d.abs_path },
                },
            }
        }
    }
}

/// The step that follows when `reply` comes in while `removal` is under
/// way.
///
/// A listing fills the innermost directory. A file or directory that is
/// gone lets the removal proceed, a directory leaving the directories that
/// are being emptied. A listing that failed ends the removal with its own
/// failure, a file or directory that could not be removed with a
/// `PexError` that holds the transport's message, and a reply that does not
/// belong to the awaited call with a `ProtocolError`.
pub open spec fn removal_step(removal: RemovalView, reply: RemoveReplyView) -> RemoveStepView {
    match (removal.awaiting, reply) {
        (Awaiting::Listing, RemoveReplyView::Listed(entries)) => if removal.frames.len() == 0 {
            finished(Err(plain_error(FileTransferErrorType::ProtocolError)))
        } else {
            proceed(
                removal.frames.drop_last().push(
                    FrameView { dir: removal.frames.last().dir, pending: entries },
                ),
            )
        },
        (Awaiting::Listing, RemoveReplyView::ListFailed(e)) => finished(Err(e)),
        (Awaiting::Unlinking, RemoveReplyView::Done) => proceed(removal.frames),
        (Awaiting::RemovingDir, RemoveReplyView::Done) => if removal.frames.len() == 0 {
            finished(Err(plain_error(FileTransferErrorType::ProtocolError)))
        } else {
            proceed(removal.frames.drop_last())
        },
        (Awaiting::Unlinking, RemoveReplyView::Failed { detail }) => finished(
            Err(detailed_error(FileTransferErrorType::PexError, detail)),
        ),
        (Awaiting::RemovingDir, RemoveReplyView::Failed { detail }) => finished(
            Err(detailed_error(FileTransferErrorType::PexError, detail)),
        ),
        _ => finished(Err(plain_error(FileTransferErrorType::ProtocolError))),
    }
}

/// The end of a removal.
fn finish(result: Result<(), FileTransferError>) -> (r: RemoveStep)
    ensures
        r@ == finished(
            match result {
                Ok(_) => Ok(()),
                Err(e) => Err(e@),
            },
        ),
{
    RemoveStep { next: None, action: RemoveAction::Finish(result) }
}

/// The first step of removing `entry`.
pub fn start(entry: &FsEntry) -> (r: RemoveStep)
    ensures
        r@ == started(entry@),
{
    match entry {
        FsEntry::File(f) => {
            let frames: Vec<Frame> = Vec::new();
            assert(frames_view(frames@) =~= Seq::<FrameView>::empty());
            RemoveStep {
                next: Some(Removal { frames, awaiting: Awaiting::Unlinking }),
                action: RemoveAction::Unlink { path: f.abs_path.clone() },
            }
        },
        FsEntry::Directory(d) => {
            let mut frames: Vec<Frame> = Vec::new();
            let pending: Vec<FsEntry> = Vec::new();
            assert(entries_view(pending@) =~= Seq::<FsEntryView>::empty());
            frames.push(Frame { dir: d.abs_path.clone(), pending });
            assert(frames_view(frames@) =~= seq![
                FrameView { dir: d.abs_path@, pending: Seq::empty() },
            ]);
            RemoveStep {
                next: Some(Removal { frames, awaiting: Awaiting::Listing }),
                action: RemoveAction::List { path: d.abs_path.clone() },
            }
        },
    }
}

/// Goes on with the directories `frames` after a call that succeeded.
fn go_on(frames: Vec<Frame>) -> (r: RemoveStep)
    ensures
        r@ == proceed(frames_view(frames@)),
{
    let mut frames = frames;
    let ghost all = frames_view(frames@);
    let ghost before = frames@;
    if frames.len() == 0 {
        return finish(Ok(()));
    }
    let top = frames.pop().unwrap();
    assert(top@ == all.last());
    assert(frames_view(frames@) =~= all.drop_last());
    let Frame { dir, pending } = top;
    let mut pending = pending;
    if pending.len() == 0 {
        let path = dir.clone();
        frames.push(Frame { dir, pending });
        assert(frames_view(frames@) =~= all);
        return RemoveStep {
            next: Some(Removal { frames, awaiting: Awaiting::RemovingDir }),
            action: RemoveAction::Rmdir { path },
        };
    }
    let ghost children = entries_view(pending@);
    let child = pending.remove(0);
    assert(child@ == children[0]);
    assert(entries_view(pending@) =~= children.drop_first());
    frames.push(Frame { dir, pending });
    let ghost rest = all.drop_last().push(
        FrameView { dir: all.last().dir, pending: children.drop_first() },
    );
    assert(frames_view(frames@) =~= rest);
    match child {
        FsEntry::File(f) => RemoveStep {
            next: Some(Removal { frames, awaiting: Awaiting::Unlinking }),
            action: RemoveAction::Unlink { path: f.abs_path },
        },
        FsEntry::Directory(d) => {
            let none: Vec<FsEntry> = Vec::new();
            assert(entries_view(none@) =~= Seq::<FsEntryView>::empty());
            frames.push(Frame { dir: d.abs_path.clone(), pending: none });
            assert(frames_view(frames@) =~= rest.push(
                FrameView { dir: d.abs_path@, pending: Seq::empty() },
            ));
            RemoveStep {
                next: Some(Removal { frames, awaiting: Awaiting::Listing }),
                action: RemoveAction::List { path: d.abs_path },
            }
        },
    }
}

/// Takes in how the last call of a removal went, and says what follows.
pub fn remove_reply(removal: Removal, reply: RemoveReply) -> (r: RemoveStep)
    ensures
        r@ == removal_step(removal@, reply@),
{
    let Removal { frames, awaiting } = removal;
    let mut frames = frames;
    let ghost all = frames_view(frames@);
    match (awaiting, reply) {
        (Awaiting::Listing, RemoveReply::Listed(entries)) => {
            if frames.len() == 0 {
                return finish(Err(FileTransferError::new(FileTransferErrorType::ProtocolError)));
            }
            let top = frames.pop().unwrap();
            assert(top@ == all.last());
            assert(frames_view(frames@) =~= all.drop_last());
            frames.push(Frame { dir: top.dir, pending: entries });
            assert(frames_view(frames@) =~= all.drop_last().push(
                FrameView { dir: all.last().dir, pending: entries_view(entries@) },
            ));
            go_on(frames)
        },
        (Awaiting::Listing, RemoveReply::ListFailed(e)) => finish(Err(e)),
        (Awaiting::Unlinking, RemoveReply::Done) => go_on(frames),
        (Awaiting::RemovingDir, RemoveReply::Done) => {
            if frames.len() == 0 {
                return finish(Err(FileTransferError::new(FileTransferErrorType::ProtocolError)));
            }
            let _ = frames.pop();
            assert(frames_view(frames@) =~= all.drop_last());
            go_on(frames)
        },
        (Awaiting::Unlinking, RemoveReply::Failed { detail }) => finish(
            Err(FileTransferError::new_ex(FileTransferErrorType::PexError, detail)),
        ),
        (Awaiting::RemovingDir, RemoveReply::Failed { detail }) => finish(
            Err(FileTransferError::new_ex(FileTransferErrorType::PexError, detail)),
        ),
        _ => finish(Err(FileTransferError::new(FileTransferErrorType::ProtocolError))),
    }
}

/// A directory is removed only once nothing of what was listed in it is
/// left to remove.
pub proof fn lemma_rmdir_only_when_empty(removal: RemovalView, reply: RemoveReplyView)
    ensures
        removal_step(removal, reply).action is Rmdir ==> {
            let next = removal_step(removal, reply).next;
            &&& next is Some
            &&& next->0.frames.len() > 0
            &&& next->0.frames.last().pending.len() == 0
            &&& next->0.frames.last().dir == removal_step(removal, reply).action->Rmdir_path
        },
{
}

/// What lies at an entry and below it: a file, or a directory with what it
/// holds, in the order in which it is listed.
pub enum Tree {
    File(FsFileView),
    Directory(FsDirectoryView, Seq<Tree>),
}

/// The entry at the top of a tree.
pub open spec fn root(t: Tree) -> FsEntryView {
    match t {
        Tree::File(f) => FsEntryView::File(f),
        Tree::Directory(d, _) => FsEntryView::Directory(d),
    }
}

/// The entries at the tops of trees.
pub open spec fn roots(ts: Seq<Tree>) -> Seq<FsEntryView> {
    ts.map_values(|t: Tree| root(t))
}

/// The calls that remove a tree, in their order: a file is removed; a
/// directory is listed, then all that it holds is removed in the order of
/// the listing, and then the directory itself.
pub open spec fn plan(t: Tree) -> Seq<RemoveActionView>
    decreases t, 0nat,
{
    match t {
        Tree::File(f) => seq![RemoveActionView::Unlink { path: f.abs_path }],
        Tree::Directory(d, held) => seq![RemoveActionView::List { path: d.abs_path }] + plan_all(
            held,
        ) + seq![RemoveActionView::Rmdir { path: d.abs_path }],
    }
}

/// The calls that remove one tree after the other.
pub open spec fn plan_all(ts: Seq<Tree>) -> Seq<RemoveActionView>
    decreases ts, ts.len(),
{
    if ts.len() == 0 {
        Seq::empty()
    } else {
        plan(ts[0]) + plan_all(ts.drop_first())
    }
}

/// What a server that does as it is asked replies while a tree is removed.
pub open spec fn answers(t: Tree) -> Seq<RemoveReplyView>
    decreases t, 0nat,
{
    match t {
        Tree::File(_) => seq![RemoveReplyView::Done],
        Tree::Directory(_, held) => seq![RemoveReplyView::Listed(roots(held))] + answers_all(held)
            + seq![RemoveReplyView::Done],
    }
}

/// What such a server replies while one tree after the other is removed.
pub open spec fn answers_all(ts: Seq<Tree>) -> Seq<RemoveReplyView>
    decreases ts, ts.len(),
{
    if ts.len() == 0 {
        Seq::empty()
    } else {
        answers(ts[0]) + answers_all(ts.drop_first())
    }
}

/// The calls that a removal asks for from `step` on, while the replies
/// `replies` come in: the action of the step, then those of the steps that
/// follow the replies, until the removal is over or the replies are.
pub open spec fn run(step: RemoveStepView, replies: Seq<RemoveReplyView>) -> Seq<RemoveActionView>
    decreases replies.len(),
{
    if step.next is None || replies.len() == 0 {
        seq![step.action]
    } else {
        seq![step.action] + run(removal_step(step.next->0, replies[0]), replies.drop_first())
    }
}

/// The number of entries of a tree.
pub open spec fn size(t: Tree) -> nat
    decreases t, 0nat,
{
    match t {
        Tree::File(_) => 1,
        Tree::Directory(_, held) => 1 + size_all(held),
    }
}

/// The number of entries of trees.
pub open spec fn size_all(ts: Seq<Tree>) -> nat
    decreases ts, ts.len(),
{
    if ts.len() == 0 {
        0
    } else {
        size(ts[0]) + size_all(ts.drop_first())
    }
}

/// Whether `forest` holds, for each directory that is being emptied, the
/// trees of the entries that are still to remove from it.
spec fn fits(frames: Seq<FrameView>, forest: Seq<Seq<Tree>>) -> bool {
    &&& frames.len() == forest.len()
    &&& forall|i: int| 0 <= i < frames.len() ==> (#[trigger] frames[i]).pending == roots(forest[i])
}

/// The calls that are still to make for the directories that are being
/// emptied: for each, from the innermost out, what is left in it is
/// removed, and then the directory itself.
spec fn rest_plan(frames: Seq<FrameView>, forest: Seq<Seq<Tree>>) -> Seq<RemoveActionView>
    decreases frames.len(),
{
    if frames.len() == 0 {
        Seq::empty()
    } else {
        plan_all(forest.last()) + seq![RemoveActionView::Rmdir { path: frames.last().dir }]
            + rest_plan(frames.drop_last(), forest.drop_last())
    }
}

/// What the server replies to the calls of `rest_plan`.
spec fn rest_answers(frames: Seq<FrameView>, forest: Seq<Seq<Tree>>) -> Seq<RemoveReplyView>
    decreases frames.len(),
{
    if frames.len() == 0 {
        Seq::empty()
    } else {
        answers_all(forest.last()) + seq![RemoveReplyView::Done] + rest_answers(
            frames.drop_last(),
            forest.drop_last(),
        )
    }
}

/// A measure of the work that is left.
spec fn weight(forest: Seq<Seq<Tree>>) -> nat
    decreases forest.len(),
{
    if forest.len() == 0 {
        0
    } else {
        2 * size_all(forest.last()) + 1 + weight(forest.drop_last())
    }
}

/// A run takes the first reply into the step that follows.
proof fn lemma_run_unfolds(step: RemoveStepView, reply: RemoveReplyView, rest: Seq<RemoveReplyView>)
    requires
        step.next is Some,
    ensures
        run(step, seq![reply] + rest) == seq![step.action] + run(
            removal_step(step.next->0, reply),
            rest,
        ),
{
    let replies = seq![reply] + rest;
    assert(replies[0] == reply);
    assert(replies.drop_first() =~= rest);
}

/// What is left to do once a directory has been entered: what is left in
/// it, then the directory, then what was left before.
proof fn lemma_rest_of_push(
    outer: Seq<FrameView>,
    outer_forest: Seq<Seq<Tree>>,
    frame: FrameView,
    trees: Seq<Tree>,
)
    requires
        fits(outer, outer_forest),
        frame.pending == roots(trees),
    ensures
        fits(outer.push(frame), outer_forest.push(trees)),
        rest_plan(outer.push(frame), outer_forest.push(trees)) == plan_all(trees) + seq![
            RemoveActionView::Rmdir { path: frame.dir },
        ] + rest_plan(outer, outer_forest),
        rest_answers(outer.push(frame), outer_forest.push(trees)) == answers_all(trees) + seq![
            RemoveReplyView::Done,
        ] + rest_answers(outer, outer_forest),
        weight(outer_forest.push(trees)) == 2 * size_all(trees) + 1 + weight(outer_forest),
{
    let frames = outer.push(frame);
    let forest = outer_forest.push(trees);
    assert(frames.drop_last() =~= outer);
    assert(forest.drop_last() =~= outer_forest);
    assert(frames.last() == frame);
    assert(forest.last() == trees);
    assert forall|i: int| 0 <= i < frames.len() implies (#[trigger] frames[i]).pending == roots(
        forest[i],
    ) by {
        if i < outer.len() {
            assert(frames[i] == outer[i]);
            assert(forest[i] == outer_forest[i]);
        }
    }
}

/// The first of some trees, and the others: the plan, the replies and the
/// size of all are those of the first and then those of the others.
proof fn lemma_first_of_trees(trees: Seq<Tree>)
    requires
        trees.len() > 0,
    ensures
        plan_all(trees) == plan(trees[0]) + plan_all(trees.drop_first()),
        answers_all(trees) == answers(trees[0]) + answers_all(trees.drop_first()),
        size_all(trees) == size(trees[0]) + size_all(trees.drop_first()),
        roots(trees)[0] == root(trees[0]),
        roots(trees).drop_first() == roots(trees.drop_first()),
{
    assert(roots(trees).drop_first() =~= roots(trees.drop_first()));
}

/// The directories that are being emptied, with the innermost set apart.
proof fn lemma_innermost(frames: Seq<FrameView>, forest: Seq<Seq<Tree>>)
    requires
        fits(frames, forest),
        frames.len() > 0,
    ensures
        fits(frames.drop_last(), forest.drop_last()),
        frames.last().pending == roots(forest.last()),
        frames == frames.drop_last().push(frames.last()),
        forest == forest.drop_last().push(forest.last()),
{
    let outer = frames.drop_last();
    let outer_forest = forest.drop_last();
    assert forall|i: int| 0 <= i < outer.len() implies (#[trigger] outer[i]).pending == roots(
        outer_forest[i],
    ) by {
        assert(outer[i] == frames[i]);
        assert(outer_forest[i] == forest[i]);
    }
    assert(frames =~= outer.push(frames.last()));
    assert(forest =~= outer_forest.push(forest.last()));
}

/// Where nothing is left in the innermost directory, it is removed, and the
/// removal goes on with the directories around it.
proof fn lemma_emptied_follows_plan(
    outer: Seq<FrameView>,
    outer_forest: Seq<Seq<Tree>>,
    top: FrameView,
)
    requires
        fits(outer, outer_forest),
        top.pending.len() == 0,
    ensures
        run(
            proceed(outer.push(top)),
            rest_answers(outer.push(top), outer_forest.push(Seq::empty())),
        ) == rest_plan(outer.push(top), outer_forest.push(Seq::empty())) + seq![
            RemoveActionView::Finish(Ok(())),
        ],
    decreases weight(outer_forest.push(Seq::empty())), 0nat,
{
    let done = seq![RemoveActionView::Finish(Ok(()))];
    let none = Seq::<Tree>::empty();
    let frames = outer.push(top);
    let forest = outer_forest.push(none);
    assert(top.pending =~= roots(none));
    lemma_rest_of_push(outer, outer_forest, top, none);
    let step = proceed(frames);
    let rmdir = RemoveActionView::Rmdir { path: top.dir };
    assert(frames.last() == top);
    assert(frames.drop_last() =~= outer);
    assert(step.action == rmdir);
    assert(removal_step(step.next->0, RemoveReplyView::Done) == proceed(outer));
    assert(rest_answers(frames, forest) =~= seq![RemoveReplyView::Done] + rest_answers(
        outer,
        outer_forest,
    ));
    lemma_run_unfolds(step, RemoveReplyView::Done, rest_answers(outer, outer_forest));
    lemma_proceed_follows_plan(outer, outer_forest);
    assert(rest_plan(frames, forest) + done =~= seq![rmdir] + (rest_plan(outer, outer_forest)
        + done));
}

/// Where a file is next in the innermost directory, it is removed, and the
/// removal goes on with what is left.
proof fn lemma_file_follows_plan(
    outer: Seq<FrameView>,
    outer_forest: Seq<Seq<Tree>>,
    top: FrameView,
    held: Seq<Tree>,
)
    requires
        fits(outer, outer_forest),
        top.pending == roots(held),
        held.len() > 0,
        held[0] is File,
    ensures
        run(proceed(outer.push(top)), rest_answers(outer.push(top), outer_forest.push(held)))
            == rest_plan(outer.push(top), outer_forest.push(held)) + seq![
            RemoveActionView::Finish(Ok(())),
        ],
    decreases weight(outer_forest.push(held)), 0nat,
{
    let done = seq![RemoveActionView::Finish(Ok(()))];
    let frames = outer.push(top);
    let forest = outer_forest.push(held);
    let others = held.drop_first();
    let left = FrameView { dir: top.dir, pending: top.pending.drop_first() };
    let kept = outer.push(left);
    let kept_forest = outer_forest.push(others);
    let unlink = RemoveActionView::Unlink { path: held[0]->File_0.abs_path };
    lemma_first_of_trees(held);
    lemma_rest_of_push(outer, outer_forest, top, held);
    lemma_rest_of_push(outer, outer_forest, left, others);
    let step = proceed(frames);
    assert(frames.last() == top);
    assert(frames.drop_last() =~= outer);
    assert(top.pending.len() > 0);
    assert(step.action == unlink);
    assert(removal_step(step.next->0, RemoveReplyView::Done) == proceed(kept));
    assert(answers(held[0]) == seq![RemoveReplyView::Done]);
    assert(plan(held[0]) == seq![unlink]);
    assert(size(held[0]) == 1);
    assert(rest_answers(frames, forest) =~= seq![RemoveReplyView::Done] + rest_answers(
        kept,
        kept_forest,
    ));
    lemma_run_unfolds(step, RemoveReplyView::Done, rest_answers(kept, kept_forest));
    lemma_proceed_follows_plan(kept, kept_forest);
    assert(rest_plan(frames, forest) + done =~= seq![unlink] + (rest_plan(kept, kept_forest)
        + done));
}

/// Where a directory is next in the innermost directory, it is listed and
/// entered, and the removal goes on inside it.
proof fn lemma_directory_follows_plan(
    outer: Seq<FrameView>,
    outer_forest: Seq<Seq<Tree>>,
    top: FrameView,
    held: Seq<Tree>,
)
    requires
        fits(outer, outer_forest),
        top.pending == roots(held),
        held.len() > 0,
        held[0] is Directory,
    ensures
        run(proceed(outer.push(top)), rest_answers(outer.push(top), outer_forest.push(held)))
            == rest_plan(outer.push(top), outer_forest.push(held)) + seq![
            RemoveActionView::Finish(Ok(())),
        ],
    decreases weight(outer_forest.push(held)), 0nat,
{
    let done = seq![RemoveActionView::Finish(Ok(()))];
    let frames = outer.push(top);
    let forest = outer_forest.push(held);
    let others = held.drop_first();
    let dir = held[0]->Directory_0.abs_path;
    let inner = held[0]->Directory_1;
    let left = FrameView { dir: top.dir, pending: top.pending.drop_first() };
    let kept = outer.push(left);
    let kept_forest = outer_forest.push(others);
    let entered_frame = FrameView { dir, pending: roots(inner) };
    let entered = kept.push(entered_frame);
    let entered_forest = kept_forest.push(inner);
    let waiting = kept.push(FrameView { dir, pending: Seq::empty() });
    let list = RemoveActionView::List { path: dir };
    let listed = RemoveReplyView::Listed(roots(inner));
    lemma_first_of_trees(held);
    lemma_rest_of_push(outer, outer_forest, top, held);
    lemma_rest_of_push(outer, outer_forest, left, others);
    lemma_rest_of_push(kept, kept_forest, entered_frame, inner);
    let step = proceed(frames);
    assert(frames.last() == top);
    assert(frames.drop_last() =~= outer);
    assert(top.pending.len() > 0);
    assert(step.action == list);
    assert(step.next->0.frames == waiting);
    assert(waiting.drop_last().push(FrameView { dir: waiting.last().dir, pending: roots(inner) })
        =~= entered);
    assert(removal_step(step.next->0, listed) == proceed(entered));
    assert(answers(held[0]) == seq![listed] + answers_all(inner) + seq![RemoveReplyView::Done]);
    assert(plan(held[0]) == seq![list] + plan_all(inner) + seq![
        RemoveActionView::Rmdir { path: dir },
    ]);
    assert(size(held[0]) == 1 + size_all(inner));
    assert(rest_answers(frames, forest) =~= seq![listed] + rest_answers(entered, entered_forest));
    lemma_run_unfolds(step, listed, rest_answers(entered, entered_forest));
    lemma_proceed_follows_plan(entered, entered_forest);
    assert(rest_plan(frames, forest) + done =~= seq![list] + (rest_plan(entered, entered_forest)
        + done));
}

/// From any point between two calls on, the removal makes the calls that
/// are still to make, and ends well.
proof fn lemma_proceed_follows_plan(frames: Seq<FrameView>, forest: Seq<Seq<Tree>>)
    requires
        fits(frames, forest),
    ensures
        run(proceed(frames), rest_answers(frames, forest)) == rest_plan(frames, forest) + seq![
            RemoveActionView::Finish(Ok(())),
        ],
    decreases weight(forest), 1nat,
{
    if frames.len() == 0 {
        assert(rest_plan(frames, forest) + seq![RemoveActionView::Finish(Ok(()))] =~= seq![
            RemoveActionView::Finish(Ok(())),
        ]);
    } else {
        lemma_innermost(frames, forest);
        let outer = frames.drop_last();
        let outer_forest = forest.drop_last();
        let top = frames.last();
        let held = forest.last();
        if held.len() == 0 {
            assert(held =~= Seq::<Tree>::empty());
            lemma_emptied_follows_plan(outer, outer_forest, top);
        } else {
            match held[0] {
                Tree::File(_) => lemma_file_follows_plan(outer, outer_forest, top, held),
                Tree::Directory(_, _) => lemma_directory_follows_plan(
                    outer,
                    outer_forest,
                    top,
                    held,
                ),
            }
        }
    }
}

/// Against a server that does as it is asked, the removal of a tree makes
/// exactly the calls of its plan, and ends well: a directory is listed,
/// all that it holds is removed in the order of the listing, directories
/// in the same way, and only then the directory itself.
pub proof fn lemma_removal_follows_plan(t: Tree)
    ensures
        run(started(root(t)), answers(t)) == plan(t) + seq![RemoveActionView::Finish(Ok(()))],
{
    let done = seq![RemoveActionView::Finish(Ok(()))];
    let step = started(root(t));
    match t {
        Tree::File(f) => {
            let none = Seq::<RemoveReplyView>::empty();
            assert(answers(t) =~= seq![RemoveReplyView::Done] + none);
            lemma_run_unfolds(step, RemoveReplyView::Done, none);
        },
        Tree::Directory(d, inner) => {
            let listed = RemoveReplyView::Listed(roots(inner));
            let frames = seq![FrameView { dir: d.abs_path, pending: roots(inner) }];
            let forest = seq![inner];
            let waiting = seq![FrameView { dir: d.abs_path, pending: Seq::empty() }];
            assert(waiting.drop_last().push(
                FrameView { dir: waiting.last().dir, pending: roots(inner) },
            ) =~= frames);
            assert(fits(frames, forest));
            assert(frames.drop_last() =~= Seq::<FrameView>::empty());
            assert(forest.drop_last() =~= Seq::<Seq<Tree>>::empty());
            assert(forest.last() == inner);
            assert(frames.last().dir == d.abs_path);
            assert(rest_answers(frames.drop_last(), forest.drop_last()) =~= Seq::<
                RemoveReplyView,
            >::empty());
            assert(rest_plan(frames.drop_last(), forest.drop_last()) =~= Seq::<
                RemoveActionView,
            >::empty());
            assert(rest_answers(frames, forest) =~= answers_all(inner) + seq![
                RemoveReplyView::Done,
            ]);
            assert(answers(t) =~= seq![listed] + rest_answers(frames, forest));
            lemma_run_unfolds(step, listed, rest_answers(frames, forest));
            lemma_proceed_follows_plan(frames, forest);
            assert(rest_plan(frames, forest) =~= plan_all(inner) + seq![
                RemoveActionView::Rmdir { path: d.abs_path },
            ]);
            assert(plan(t) + done =~= seq![step.action] + (rest_plan(frames, forest) + done));
        },
    }
}

/// A listing or a removal that failed ends the whole removal with a
/// failure: whatever the server would reply, no call is asked for after it,
/// so the directories that were being emptied stay.
pub proof fn lemma_failure_ends_removal(
    removal: RemovalView,
    reply: RemoveReplyView,
    rest: Seq<RemoveReplyView>,
)
    requires
        reply is Failed || reply is ListFailed,
    ensures
        removal_step(removal, reply).next is None,
        removal_step(removal, reply).action matches RemoveActionView::Finish(Err(_)),
        run(removal_step(removal, reply), rest) == seq![removal_step(removal, reply).action],
{
}

} // verus!
