//! A box of log lines with a cursor on one of them.

use vstd::prelude::*;
use crate::ui::layout::props::Props;
use crate::ui::layout::{InputEvent, KeyCode, Msg, Payload};

verus! {

/// How many lines the cursor moves for a page.
pub const PAGE: usize = 8;

/// The state of a log box: where the cursor stands, how many lines there
/// are, and whether the box has the focus.
#[derive(Clone, Copy, Debug, PartialEq, Eq, Structural)]
pub struct OwnStates {
    pub list_index: usize,
    pub list_len: usize,
    pub focus: bool,
}

/// The cursor moved one line on, unless the line behind it is past the last
/// one.
pub open spec fn incremented(s: OwnStates) -> OwnStates {
    OwnStates {
        list_index: if s.list_index + 1 < s.list_len {
            (s.list_index + 1) as usize
        } else {
            s.list_index
        },
        ..s
    }
}

/// The cursor moved one line back, unless it is on the first.
pub open spec fn decremented(s: OwnStates) -> OwnStates {
    OwnStates {
        list_index: if s.list_index > 0 {
            (s.list_index - 1) as usize
        } else {
            0
        },
        ..s
    }
}

/// The cursor moved on `n` times.
pub open spec fn incremented_by(s: OwnStates, n: nat) -> OwnStates
    decreases n,
{
    if n == 0 {
        s
    } else {
        incremented(incremented_by(s, (n - 1) as nat))
    }
}

/// The cursor moved back `n` times.
pub open spec fn decremented_by(s: OwnStates, n: nat) -> OwnStates
    decreases n,
{
    if n == 0 {
        s
    } else {
        decremented(decremented_by(s, (n - 1) as nat))
    }
}

impl Default for OwnStates {
    /// An empty box without the focus.
    fn default() -> (r: Self)
        ensures
            r == (OwnStates { list_index: 0, list_len: 0, focus: false }),
    {
        OwnStates { list_index: 0, list_len: 0, focus: false }
    }
}

impl OwnStates {
    /// Sets the number of lines; the cursor stays where it is.
    pub fn set_list_len(&mut self, len: usize)
        ensures
            *final(self) == (OwnStates { list_len: len, ..*old(self) }),
    {
        self.list_len = len;
    }

    /// The line that the cursor is on.
    pub fn get_list_index(&self) -> (r: usize)
        ensures
            r == self.list_index,
    {
        self.list_index
    }

    /// Moves the cursor one line on, unless the line behind it is past the
    /// last one.
    pub fn incr_list_index(&mut self)
        ensures
            *final(self) == incremented(*old(self)),
    {
        if self.list_len > 0 && self.list_index < self.list_len - 1 {
            self.list_index += 1;
        }
    }

    /// Moves the cursor one line back, unless it is on the first.
    pub fn decr_list_index(&mut self)
        ensures
            *final(self) == decremented(*old(self)),
    {
        if self.list_index > 0 {
            self.list_index -= 1;
        }
    }

    /// Puts the cursor on the first line.
    pub fn reset_list_index(&mut self)
        ensures
            *final(self) == (OwnStates { list_index: 0, ..*old(self) }),
    {
        self.list_index = 0;
    }
}

/// The number of rows of the body of `props`.
pub open spec fn row_count(props: Props) -> nat {
    match props.texts.body {
        Some(rows) => rows@.len(),
        None => 0,
    }
}

/// What a key does to the state of a log box: the arrows move the cursor
/// by a line and the page keys by a page, up towards the last line and down
/// towards the first. Other keys, and what is no key, leave it.
pub open spec fn after_event(s: OwnStates, ev: InputEvent) -> OwnStates {
    match ev {
        InputEvent::Key(key) => match key.code {
            KeyCode::Up => incremented(s),
            KeyCode::Down => decremented(s),
            KeyCode::PageUp => incremented_by(s, PAGE as nat),
            KeyCode::PageDown => decremented_by(s, PAGE as nat),
            _ => s,
        },
        _ => s,
    }
}

/// What a log box tells of an event: a key that it has no use for is
/// handed on; of anything else there is nothing to tell.
pub open spec fn told(ev: InputEvent) -> Msg {
    match ev {
        InputEvent::Key(key) => match key.code {
            KeyCode::Up | KeyCode::Down | KeyCode::PageUp | KeyCode::PageDown => Msg::Nothing,
            _ => Msg::OnKey(key),
        },
        _ => Msg::Nothing,
    }
}

/// A box of log lines.
#[derive(Debug)]
pub struct LogBox {
    pub props: Props,
    pub states: OwnStates,
}

impl LogBox {
    /// The number of rows of `props`.
    fn rows(props: &Props) -> (r: usize)
        ensures
            r == row_count(*props),
    {
        match &props.texts.body {
            Some(rows) => rows.len(),
            None => 0,
        }
    }

    /// A box that shows the rows of `props`, with the cursor on the first
    /// and without the focus.
    pub fn new(props: Props) -> (r: Self)
        ensures
            r.props == props,
            r.states == (OwnStates {
                list_index: 0,
                list_len: row_count(props) as usize,
                focus: false,
            }),
    {
        let mut states: OwnStates = OwnStates::default();
        states.set_list_len(Self::rows(&props));
        states.reset_list_index();
        LogBox { props, states }
    }

    /// Takes new properties: the cursor goes back to the first row.
    pub fn update(&mut self, props: Props) -> (r: Msg)
        ensures
            r == Msg::Nothing,
            final(self).props == props,
            final(self).states == (OwnStates {
                list_index: 0,
                list_len: row_count(props) as usize,
                focus: old(self).states.focus,
            }),
    {
        self.states.set_list_len(Self::rows(&props));
        self.states.reset_list_index();
        self.props = props;
        Msg::Nothing
    }

    /// Takes in an event; see `after_event` and `told`.
    pub fn on(&mut self, ev: InputEvent) -> (r: Msg)
        ensures
            r == told(ev),
            final(self).props == old(self).props,
            final(self).states == after_event(old(self).states, ev),
    {
        match ev {
            InputEvent::Key(key) => match key.code {
                KeyCode::Up => {
                    self.states.incr_list_index();
                    Msg::Nothing
                },
                KeyCode::Down => {
                    self.states.decr_list_index();
                    Msg::Nothing
                },
                KeyCode::PageUp => {
                    let ghost start = self.states;
                    let mut i: usize = 0;
                    while i < PAGE
                        invariant
                            i <= PAGE,
                            self.props == old(self).props,
                            self.states == incremented_by(start, i as nat),
                        decreases PAGE - i,
                    {
                        self.states.incr_list_index();
                        i += 1;
                    }
                    Msg::Nothing
                },
                KeyCode::PageDown => {
                    let ghost start = self.states;
                    let mut i: usize = 0;
                    while i < PAGE
                        invariant
                            i <= PAGE,
                            self.props == old(self).props,
                            self.states == decremented_by(start, i as nat),
                        decreases PAGE - i,
                    {
                        self.states.decr_list_index();
                        i += 1;
                    }
                    Msg::Nothing
                },
                _ => Msg::OnKey(key),
            },
            _ => Msg::Nothing,
        }
    }

    /// The line that the cursor is on.
    pub fn get_value(&self) -> (r: Payload)
        ensures
            r == Payload::Unsigned(self.states.list_index),
    {
        Payload::Unsigned(self.states.get_list_index())
    }

    /// Takes the focus away.
    pub fn blur(&mut self)
        ensures
            final(self).props == old(self).props,
            final(self).states == (OwnStates { focus: false, ..old(self).states }),
    {
        self.states.focus = false;
    }

    /// Gives the focus.
    pub fn active(&mut self)
        ensures
            final(self).props == old(self).props,
            final(self).states == (OwnStates { focus: true, ..old(self).states }),
    {
        self.states.focus = true;
    }
}

/// With the cursor within the lines, moving on never leaves them, and
/// moving back never passes the first.
pub proof fn lemma_cursor_stays_within(s: OwnStates)
    requires
        s.list_index < s.list_len,
    ensures
        incremented(s).list_index < s.list_len,
        decremented(s).list_index < s.list_len,
        s.list_index <= incremented(s).list_index <= s.list_index + 1,
        decremented(s).list_index <= s.list_index <= decremented(s).list_index + 1,
{
}

} // verus!
