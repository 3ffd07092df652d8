//! The screen that asks where to connect, and keeps the bookmarks.

use vstd::prelude::*;

pub mod update;

verus! {

/// The components of the screen.
#[derive(Clone, Copy, Debug, PartialEq, Eq, Structural)]
pub enum Component {
    TextHelp,
    TextError,
    InputAddr,
    InputPort,
    InputUsername,
    InputPassword,
    InputBookmarkName,
    RadioProtocol,
    RadioQuit,
    RadioBookmarkDelBookmark,
    RadioBookmarkDelRecent,
    RadioBookmarkSavePwd,
    BookmarksList,
    RecentsList,
    /// Any other component.
    Other,
}

} // verus!
