//! What the screen does when one of its components has something to tell.

use vstd::prelude::*;
use crate::ui::activities::auth_activity::Component;
use crate::ui::activities::ExitReason;
use crate::ui::layout::{KeyCode, KeyEvent, Msg, Payload};

verus! {

/// What the screen has to do.
#[derive(Clone, Copy, Debug, PartialEq, Eq, Structural)]
pub enum AuthAction {
    /// Give the focus to a component.
    Active(Component),
    MountBookmarkDelDialog,
    MountRecentDelDialog,
    UmountBookmarkDelDialog,
    UmountRecentDelDialog,
    /// Fill the form from a bookmark.
    LoadBookmark(usize),
    /// Fill the form from a recent connection.
    LoadRecent(usize),
    DelBookmark(usize),
    DelRecent(usize),
    /// Show the bookmarks anew, and take in what their list tells then.
    ViewBookmarks,
    /// Show the recent connections anew, and take in what their list tells
    /// then.
    ViewRecentConnections,
    /// Hide a component, and take in what it tells then.
    Hide(Component),
    MountHelp,
    UmountHelp,
    MountBookmarkSaveDialog,
    UmountBookmarkSaveDialog,
    /// Save the form as a bookmark under the name that was entered, with
    /// the password or without.
    SaveBookmark { save_password: bool },
    UmountError,
    MountQuit,
    UmountQuit,
    /// Remember the form as a recent connection.
    SaveRecent,
    /// Take the form as the parameters of the connection.
    SetParams,
    /// Leave the screen.
    Exit(ExitReason),
}

/// What the components hold that a decision may depend on.
#[derive(Clone, Copy, Debug, PartialEq, Eq, Structural)]
pub struct AuthValues {
    /// The bookmark that is selected, where the list holds a number.
    pub bookmark: Option<usize>,
    /// The recent connection that is selected, where the list holds a
    /// number.
    pub recent: Option<usize>,
    /// The choice of whether to save the password, where there is one; 0
    /// means yes.
    pub save_password: Option<usize>,
    /// Whether the dialog that deletes a bookmark is there.
    pub del_bookmark_mounted: bool,
    /// Whether the dialog that deletes a recent connection is there.
    pub del_recent_mounted: bool,
}

/// Whether `msg` hands on the key `code`, pressed with no modifier key.
pub open spec fn is_key(msg: Msg, code: KeyCode) -> bool {
    msg == Msg::OnKey(KeyEvent { code, shift: false, control: false, alt: false })
}

/// Whether `msg` hands on the letter `c`, pressed with the control key.
pub open spec fn is_control(msg: Msg, c: char) -> bool {
    msg == Msg::OnKey(KeyEvent { code: KeyCode::Char(c), shift: false, control: true, alt: false })
}

/// The number that `msg` submits, where it submits one.
pub open spec fn number_of(msg: Msg) -> Option<usize> {
    match msg {
        Msg::OnSubmit(Payload::Unsigned(n)) => Some(n),
        _ => None,
    }
}

/// Whether the component is one of the fields of the form.
pub open spec fn is_field(c: Component) -> bool {
    c == Component::InputAddr || c == Component::InputPort || c == Component::RadioProtocol || c
        == Component::InputUsername || c == Component::InputPassword
}

/// The field below `c`; below the last stands the first.
pub open spec fn field_below(c: Component) -> Component {
    match c {
        Component::InputAddr => Component::InputPort,
        Component::InputPort => Component::RadioProtocol,
        Component::RadioProtocol => Component::InputUsername,
        Component::InputUsername => Component::InputPassword,
        _ => Component::InputAddr,
    }
}

/// The field above `c`; above the first stands the last.
pub open spec fn field_above(c: Component) -> Component {
    match c {
        Component::InputPassword => Component::InputUsername,
        Component::InputUsername => Component::RadioProtocol,
        Component::RadioProtocol => Component::InputPort,
        Component::InputPort => Component::InputAddr,
        _ => Component::InputPassword,
    }
}

/// What the screen does when the component `c` tells `msg`. Of the rules
/// the first that fits is taken:
///
/// - Down and up move the focus through the fields of the form, and
///   between the name of a bookmark and the choice to save its password.
/// - Tab goes from the lists to the address, and from anywhere else to the
///   bookmarks; right and left go between the two lists.
/// - Delete or `e` on a list asks whether to delete the selected entry; a
///   submitted number loads it and goes to the password.
/// - The answer 0 to such a question deletes the selected entry and shows
///   the list anew; any answer closes the question, and escape hides it.
/// - Control-H shows the help, which enter or escape closes; control-C
///   leaves for the setup; control-S asks for the name of a bookmark.
/// - A submitted name, or choice to save the password, saves the bookmark;
///   escape closes that question.
/// - Enter closes an error. The answer 0 to the question whether to quit
///   quits; any answer closes it, and so does escape.
/// - Anything else submitted, or enter, connects; escape asks whether to
///   quit. All else does nothing.
pub open spec fn actions_for(c: Component, msg: Msg, values: AuthValues) -> Seq<AuthAction> {
    if is_field(c) && is_key(msg, KeyCode::Down) {
        seq![AuthAction::Active(field_below(c))]
    } else if is_field(c) && is_key(msg, KeyCode::Up) {
        seq![AuthAction::Active(field_above(c))]
    } else if (c == Component::BookmarksList || c == Component::RecentsList) && is_key(
        msg,
        KeyCode::Tab,
    ) {
        seq![AuthAction::Active(Component::InputAddr)]
    } else if is_key(msg, KeyCode::Tab) {
        seq![AuthAction::Active(Component::BookmarksList)]
    } else if c == Component::BookmarksList && is_key(msg, KeyCode::Right) {
        seq![AuthAction::Active(Component::RecentsList)]
    } else if c == Component::RecentsList && is_key(msg, KeyCode::Left) {
        seq![AuthAction::Active(Component::BookmarksList)]
    } else if c == Component::BookmarksList && (is_key(msg, KeyCode::Delete) || is_key(
        msg,
        KeyCode::Char('e'),
    )) {
        seq![AuthAction::MountBookmarkDelDialog]
    } else if c == Component::RecentsList && (is_key(msg, KeyCode::Delete) || is_key(
        msg,
        KeyCode::Char('e'),
    )) {
        seq![AuthAction::MountRecentDelDialog]
    } else if c == Component::BookmarksList && number_of(msg) is Some {
        seq![
            AuthAction::LoadBookmark(number_of(msg)->0),
            AuthAction::Active(Component::InputPassword),
        ]
    } else if c == Component::RecentsList && number_of(msg) is Some {
        seq![
            AuthAction::LoadRecent(number_of(msg)->0),
            AuthAction::Active(Component::InputPassword),
        ]
    } else if c == Component::RadioBookmarkDelBookmark && number_of(msg) is Some {
        if number_of(msg) == Some(0usize) && values.bookmark is Some {
            seq![
                AuthAction::UmountBookmarkDelDialog,
                AuthAction::DelBookmark(values.bookmark->0),
                AuthAction::ViewBookmarks,
            ]
        } else {
            seq![AuthAction::UmountBookmarkDelDialog]
        }
    } else if c == Component::RadioBookmarkDelRecent && number_of(msg) is Some {
        if number_of(msg) == Some(0usize) && values.recent is Some {
            seq![
                AuthAction::UmountRecentDelDialog,
                AuthAction::DelRecent(values.recent->0),
                AuthAction::ViewRecentConnections,
            ]
        } else {
            seq![AuthAction::UmountRecentDelDialog]
        }
    } else if c == Component::RadioBookmarkDelRecent && is_key(msg, KeyCode::Esc) {
        if values.del_recent_mounted {
            seq![AuthAction::Hide(Component::RadioBookmarkDelRecent)]
        } else {
            Seq::empty()
        }
    } else if c == Component::RadioBookmarkDelBookmark && is_key(msg, KeyCode::Esc) {
        if values.del_bookmark_mounted {
            seq![AuthAction::Hide(Component::RadioBookmarkDelBookmark)]
        } else {
            Seq::empty()
        }
    } else if is_control(msg, 'h') {
        seq![AuthAction::MountHelp]
    } else if c == Component::TextHelp && (is_key(msg, KeyCode::Enter) || is_key(
        msg,
        KeyCode::Esc,
    )) {
        seq![AuthAction::UmountHelp]
    } else if is_control(msg, 'c') {
        seq![AuthAction::Exit(ExitReason::EnterSetup)]
    } else if is_control(msg, 's') {
        seq![AuthAction::MountBookmarkSaveDialog, AuthAction::Active(Component::InputBookmarkName)]
    } else if c == Component::InputBookmarkName && is_key(msg, KeyCode::Down) {
        seq![AuthAction::Active(Component::RadioBookmarkSavePwd)]
    } else if c == Component::RadioBookmarkSavePwd && is_key(msg, KeyCode::Up) {
        seq![AuthAction::Active(Component::InputBookmarkName)]
    } else if (c == Component::InputBookmarkName || c == Component::RadioBookmarkSavePwd)
        && msg is OnSubmit {
        seq![
            AuthAction::SaveBookmark { save_password: values.save_password == Some(0usize) },
            AuthAction::UmountBookmarkSaveDialog,
            AuthAction::ViewBookmarks,
        ]
    } else if (c == Component::InputBookmarkName || c == Component::RadioBookmarkSavePwd)
        && is_key(msg, KeyCode::Esc) {
        seq![AuthAction::UmountBookmarkSaveDialog]
    } else if c == Component::TextError && is_key(msg, KeyCode::Enter) {
        seq![AuthAction::UmountError]
    } else if c == Component::RadioQuit && number_of(msg) is Some {
        if number_of(msg) == Some(0usize) {
            seq![AuthAction::Exit(ExitReason::Quit), AuthAction::UmountQuit]
        } else {
            seq![AuthAction::UmountQuit]
        }
    } else if c == Component::RadioQuit && is_key(msg, KeyCode::Esc) {
        seq![AuthAction::UmountQuit]
    } else if msg is OnSubmit || is_key(msg, KeyCode::Enter) {
        seq![AuthAction::SaveRecent, AuthAction::SetParams, AuthAction::Exit(ExitReason::Connect)]
    } else if is_key(msg, KeyCode::Esc) {
        seq![AuthAction::MountQuit]
    } else {
        Seq::empty()
    }
}

/// Tells whether `msg` hands on the key `code`, pressed with no modifier
/// key.
fn key(msg: &Msg, code: KeyCode) -> (r: bool)
    ensures
        r == is_key(*msg, code),
{
    match msg {
        Msg::OnKey(k) => k.code == code && !k.shift && !k.control && !k.alt,
        _ => false,
    }
}

/// Tells whether `msg` hands on the letter `c`, pressed with the control
/// key.
fn control(msg: &Msg, c: char) -> (r: bool)
    ensures
        r == is_control(*msg, c),
{
    match msg {
        Msg::OnKey(k) => k.code == KeyCode::Char(c) && !k.shift && k.control && !k.alt,
        _ => false,
    }
}

/// The number that `msg` submits, where it submits one.
fn submitted(msg: &Msg) -> (r: Option<usize>)
    ensures
        r == number_of(*msg),
{
    match msg {
        Msg::OnSubmit(Payload::Unsigned(n)) => Some(*n),
        _ => None,
    }
}

/// Tells whether `msg` submits anything.
fn submits(msg: &Msg) -> (r: bool)
    ensures
        r == (*msg is OnSubmit),
{
    match msg {
        Msg::OnSubmit(_) => true,
        _ => false,
    }
}

/// Tells whether the component is one of the fields of the form.
fn field(c: Component) -> (r: bool)
    ensures
        r == is_field(c),
{
    c == Component::InputAddr || c == Component::InputPort || c == Component::RadioProtocol || c
        == Component::InputUsername || c == Component::InputPassword
}

/// The field below `c`.
fn below(c: Component) -> (r: Component)
    ensures
        r == field_below(c),
{
    match c {
        Component::InputAddr => Component::InputPort,
        Component::InputPort => Component::RadioProtocol,
        Component::RadioProtocol => Component::InputUsername,
        Component::InputUsername => Component::InputPassword,
        _ => Component::InputAddr,
    }
}

/// The field above `c`.
fn above(c: Component) -> (r: Component)
    ensures
        r == field_above(c),
{
    match c {
        Component::InputPassword => Component::InputUsername,
        Component::InputUsername => Component::RadioProtocol,
        Component::RadioProtocol => Component::InputPort,
        Component::InputPort => Component::InputAddr,
        _ => Component::InputPassword,
    }
}

/// What the screen does with what came in: nothing where no component told
/// anything, else what `actions_for` says.
pub open spec fn actions_on(msg: Option<(Component, Msg)>, values: AuthValues) -> Seq<AuthAction> {
    match msg {
        Some((c, told)) => actions_for(c, told, values),
        None => Seq::empty(),
    }
}

/// Says what the screen has to do with what came in, in the order in which
/// it has to be done. Where no component told anything, there is nothing to
/// do.
pub fn update(msg: Option<(Component, Msg)>, values: &AuthValues) -> (r: Vec<AuthAction>)
    ensures
        r@ == actions_on(msg, *values),
{
    match msg {
        Some((c, told)) => on_message(c, &told, values),
        None => Vec::new(),
    }
}

/// Says what the screen has to do when the component `c` tells `msg`, in
/// the order in which it has to be done; see `actions_for`.
pub fn on_message(c: Component, msg: &Msg, values: &AuthValues) -> (r: Vec<AuthAction>)
    ensures
        r@ == actions_for(c, *msg, *values),
{
    let list: bool = c == Component::BookmarksList || c == Component::RecentsList;
    let delete: bool = key(msg, KeyCode::Delete) || key(msg, KeyCode::Char('e'));
    let naming: bool = c == Component::InputBookmarkName || c == Component::RadioBookmarkSavePwd;
    let number: Option<usize> = submitted(msg);
    if field(c) && key(msg, KeyCode::Down) {
        vec![AuthAction::Active(below(c))]
    } else if field(c) && key(msg, KeyCode::Up) {
        vec![AuthAction::Active(above(c))]
    } else if list && key(msg, KeyCode::Tab) {
        vec![AuthAction::Active(Component::InputAddr)]
    } else if key(msg, KeyCode::Tab) {
        vec![AuthAction::Active(Component::BookmarksList)]
    } else if c == Component::BookmarksList && key(msg, KeyCode::Right) {
        vec![AuthAction::Active(Component::RecentsList)]
    } else if c == Component::RecentsList && key(msg, KeyCode::Left) {
        vec![AuthAction::Active(Component::BookmarksList)]
    } else if c == Component::BookmarksList && delete {
        vec![AuthAction::MountBookmarkDelDialog]
    } else if c == Component::RecentsList && delete {
        vec![AuthAction::MountRecentDelDialog]
    } else if c == Component::BookmarksList && number.is_some() {
        vec![AuthAction::LoadBookmark(number.unwrap()), AuthAction::Active(Component::InputPassword)]
    } else if c == Component::RecentsList && number.is_some() {
        vec![AuthAction::LoadRecent(number.unwrap()), AuthAction::Active(Component::InputPassword)]
    } else if c == Component::RadioBookmarkDelBookmark && number.is_some() {
        match (number, values.bookmark) {
            (Some(0), Some(selected)) => vec![
                AuthAction::UmountBookmarkDelDialog,
                AuthAction::DelBookmark(selected),
                AuthAction::ViewBookmarks,
            ],
            _ => vec![AuthAction::UmountBookmarkDelDialog],
        }
    } else if c == Component::RadioBookmarkDelRecent && number.is_some() {
        match (number, values.recent) {
            (Some(0), Some(selected)) => vec![
                AuthAction::UmountRecentDelDialog,
                AuthAction::DelRecent(selected),
                AuthAction::ViewRecentConnections,
            ],
            _ => vec![AuthAction::UmountRecentDelDialog],
        }
    } else if c == Component::RadioBookmarkDelRecent && key(msg, KeyCode::Esc) {
        if values.del_recent_mounted {
            vec![AuthAction::Hide(Component::RadioBookmarkDelRecent)]
        } else {
            Vec::new()
        }
    } else if c == Component::RadioBookmarkDelBookmark && key(msg, KeyCode::Esc) {
        if values.del_bookmark_mounted {
            vec![AuthAction::Hide(Component::RadioBookmarkDelBookmark)]
        } else {
            Vec::new()
        }
    } else if control(msg, 'h') {
        vec![AuthAction::MountHelp]
    } else if c == Component::TextHelp && (key(msg, KeyCode::Enter) || key(msg, KeyCode::Esc)) {
        vec![AuthAction::UmountHelp]
    } else if control(msg, 'c') {
        vec![AuthAction::Exit(ExitReason::EnterSetup)]
    } else if control(msg, 's') {
        vec![AuthAction::MountBookmarkSaveDialog, AuthAction::Active(Component::InputBookmarkName)]
    } else if c == Component::InputBookmarkName && key(msg, KeyCode::Down) {
        vec![AuthAction::Active(Component::RadioBookmarkSavePwd)]
    } else if c == Component::RadioBookmarkSavePwd && key(msg, KeyCode::Up) {
        vec![AuthAction::Active(Component::InputBookmarkName)]
    } else if naming && submits(msg) {
        let save_password: bool = match values.save_password {
            Some(0) => true,
            _ => false,
        };
        vec![
            AuthAction::SaveBookmark { save_password },
            AuthAction::UmountBookmarkSaveDialog,
            AuthAction::ViewBookmarks,
        ]
    } else if naming && key(msg, KeyCode::Esc) {
        vec![AuthAction::UmountBookmarkSaveDialog]
    } else if c == Component::TextError && key(msg, KeyCode::Enter) {
        vec![AuthAction::UmountError]
    } else if c == Component::RadioQuit && number.is_some() {
        match number {
            Some(0) => vec![AuthAction::Exit(ExitReason::Quit), AuthAction::UmountQuit],
            _ => vec![AuthAction::UmountQuit],
        }
    } else if c == Component::RadioQuit && key(msg, KeyCode::Esc) {
        vec![AuthAction::UmountQuit]
    } else if submits(msg) || key(msg, KeyCode::Enter) {
        vec![AuthAction::SaveRecent, AuthAction::SetParams, AuthAction::Exit(ExitReason::Connect)]
    } else if key(msg, KeyCode::Esc) {
        vec![AuthAction::MountQuit]
    } else {
        Vec::new()
    }
}

} // verus!
