//! A group of choices of which one is selected.

use vstd::prelude::*;
use crate::ui::layout::props::{PropValue, Props, TextSpan};
use crate::ui::layout::{InputEvent, KeyCode, Msg, Payload};
use crate::utils::text::strings_view;

verus! {

/// The state of a radio group: the selected choice, the choices, and
/// whether the group has the focus.
#[derive(Debug, PartialEq, Eq)]
pub struct OwnStates {
    pub choice: usize,
    pub choices: Vec<String>,
    pub focus: bool,
}

/// The texts of a run of spans.
pub open spec fn contents(spans: Seq<TextSpan>) -> Seq<Seq<char>> {
    spans.map_values(|s: TextSpan| s.content@)
}

impl Default for OwnStates {
    /// No choices, the first selected, without the focus.
    fn default() -> (r: Self)
        ensures
            r.choice == 0,
            r.choices@.len() == 0,
            !r.focus,
    {
        OwnStates { choice: 0, choices: Vec::new(), focus: false }
    }
}

impl OwnStates {
    /// Selects the next choice, unless the selected one is the last.
    pub fn next_choice(&mut self)
        ensures
            final(self).choice == (if old(self).choice + 1 < old(self).choices@.len() {
                (old(self).choice + 1) as usize
            } else {
                old(self).choice
            }),
            final(self).choices == old(self).choices,
            final(self).focus == old(self).focus,
    {
        if self.choices.len() > 0 && self.choice < self.choices.len() - 1 {
            self.choice += 1;
        }
    }

    /// Selects the choice before, unless the selected one is the first.
    pub fn prev_choice(&mut self)
        ensures
            final(self).choice == (if old(self).choice > 0 {
                (old(self).choice - 1) as usize
            } else {
                0
            }),
            final(self).choices == old(self).choices,
            final(self).focus == old(self).focus,
    {
        if self.choice > 0 {
            self.choice -= 1;
        }
    }

    /// Takes the texts of `spans` as the choices; the selection stays.
    pub fn make_choices(&mut self, spans: &[TextSpan])
        ensures
            strings_view(final(self).choices@) == contents(spans@),
            final(self).choice == old(self).choice,
            final(self).focus == old(self).focus,
    {
        let mut choices: Vec<String> = Vec::new();
        let mut i: usize = 0;
        while i < spans.len()
            invariant
                i <= spans.len(),
                choices@.len() == i,
                strings_view(choices@) == contents(spans@.take(i as int)),
            decreases spans.len() - i,
        {
            let ghost before = choices@;
            let text: String = spans[i].content.clone();
            choices.push(text);
            assert forall|k: int| 0 <= k < choices@.len() implies strings_view(choices@)[k]
                == contents(spans@.take(i + 1))[k] by {
                if k < i {
                    assert(choices@[k] == before[k]);
                    assert(strings_view(before)[k] == contents(spans@.take(i as int))[k]);
                }
            }
            assert(strings_view(choices@) =~= contents(spans@.take(i + 1)));
            i += 1;
        }
        assert(spans@.take(spans.len() as int) =~= spans@);
        self.choices = choices;
    }
}

/// The rows of the body of `props`.
pub open spec fn rows_of(props: Props) -> Seq<Seq<char>> {
    match props.texts.body {
        Some(rows) => strings_view(rows@),
        None => Seq::empty(),
    }
}

/// The choice that `props` gives, where it gives one; else `choice`.
pub open spec fn choice_of(props: Props, choice: usize) -> usize {
    match props.value {
        PropValue::Unsigned(c) => c,
        _ => choice,
    }
}

/// The choice after the next one was selected among `count` choices.
pub open spec fn next_of(choice: usize, count: nat) -> usize {
    if choice + 1 < count {
        (choice + 1) as usize
    } else {
        choice
    }
}

/// The choice after the one before was selected.
pub open spec fn prev_of(choice: usize) -> usize {
    if choice > 0 {
        (choice - 1) as usize
    } else {
        0
    }
}

/// The choice that is selected after an event: the right arrow selects the
/// next choice and the left arrow the one before; nothing else changes the
/// selection.
pub open spec fn selected_after(choice: usize, count: nat, ev: InputEvent) -> usize {
    match ev {
        InputEvent::Key(key) => match key.code {
            KeyCode::Right => next_of(choice, count),
            KeyCode::Left => prev_of(choice),
            _ => choice,
        },
        _ => choice,
    }
}

/// What a radio group tells of an event, `choice` being selected after it:
/// the arrows tell the new selection, `Enter` submits it, any other key is
/// handed on, and of what is no key there is nothing to tell.
pub open spec fn told(choice: usize, ev: InputEvent) -> Msg {
    match ev {
        InputEvent::Key(key) => match key.code {
            KeyCode::Right | KeyCode::Left => Msg::OnChange(Payload::Unsigned(choice)),
            KeyCode::Enter => Msg::OnSubmit(Payload::Unsigned(choice)),
            _ => Msg::OnKey(key),
        },
        _ => Msg::Nothing,
    }
}

/// A group of choices of which one is selected.
#[derive(Debug)]
pub struct RadioGroup {
    pub props: Props,
    pub states: OwnStates,
}

impl RadioGroup {
    /// Takes the rows of `props` as the choices, and its value as the
    /// selection where it has one.
    fn take(states: &mut OwnStates, props: &Props)
        ensures
            strings_view(final(states).choices@) == rows_of(*props),
            final(states).choice == choice_of(*props, old(states).choice),
            final(states).focus == old(states).focus,
    {
        let mut spans: Vec<TextSpan> = Vec::new();
        match &props.texts.body {
            Some(rows) => {
                let mut i: usize = 0;
                while i < rows.len()
                    invariant
                        i <= rows.len(),
                        spans@.len() == i,
                        contents(spans@) == strings_view(rows@.take(i as int)),
                    decreases rows.len() - i,
                {
                    let ghost before = spans@;
                    spans.push(TextSpan::from(rows[i].as_str()));
                    assert forall|k: int| 0 <= k < spans@.len() implies contents(spans@)[k]
                        == strings_view(rows@.take(i + 1))[k] by {
                        if k < i {
                            assert(spans@[k] == before[k]);
                            assert(contents(before)[k] == strings_view(rows@.take(i as int))[k]);
                        }
                    }
                    assert(contents(spans@) =~= strings_view(rows@.take(i + 1)));
                    i += 1;
                }
                assert(rows@.take(rows.len() as int) =~= rows@);
            },
            None => {
                assert(contents(spans@) =~= Seq::<Seq<char>>::empty());
            },
        }
        states.make_choices(spans.as_slice());
        match props.value {
            PropValue::Unsigned(choice) => {
                states.choice = choice;
            },
            _ => {},
        }
    }

    /// A group of the rows of `props`, of which the value of `props` is
    /// selected, or the first where it has none; without the focus.
    pub fn new(props: Props) -> (r: Self)
        ensures
            r.props == props,
            strings_view(r.states.choices@) == rows_of(props),
            r.states.choice == choice_of(props, 0),
            !r.states.focus,
    {
        let mut states: OwnStates = OwnStates::default();
        Self::take(&mut states, &props);
        RadioGroup { props, states }
    }

    /// Takes new properties: their rows are the choices, and their value
    /// the selection; without a value the selection stays.
    pub fn update(&mut self, props: Props) -> (r: Msg)
        ensures
            r == Msg::Nothing,
            final(self).props == props,
            strings_view(final(self).states.choices@) == rows_of(props),
            final(self).states.choice == choice_of(props, old(self).states.choice),
            final(self).states.focus == old(self).states.focus,
    {
        Self::take(&mut self.states, &props);
        self.props = props;
        Msg::Nothing
    }

    /// Takes in an event; see `selected_after` and `told`.
    pub fn on(&mut self, ev: InputEvent) -> (r: Msg)
        ensures
            final(self).props == old(self).props,
            final(self).states.choices == old(self).states.choices,
            final(self).states.focus == old(self).states.focus,
            final(self).states.choice == selected_after(
                old(self).states.choice,
                old(self).states.choices@.len(),
                ev,
            ),
            r == told(final(self).states.choice, ev),
    {
        match ev {
            InputEvent::Key(key) => match key.code {
                KeyCode::Right => {
                    self.states.next_choice();
                    Msg::OnChange(self.get_value())
                },
                KeyCode::Left => {
                    self.states.prev_choice();
                    Msg::OnChange(self.get_value())
                },
                KeyCode::Enter => Msg::OnSubmit(self.get_value()),
                _ => Msg::OnKey(key),
            },
            _ => Msg::Nothing,
        }
    }

    /// The selected choice.
    pub fn get_value(&self) -> (r: Payload)
        ensures
            r == Payload::Unsigned(self.states.choice),
    {
        Payload::Unsigned(self.states.choice)
    }

    /// Takes the focus away.
    pub fn blur(&mut self)
        ensures
            final(self).props == old(self).props,
            final(self).states.choice == old(self).states.choice,
            final(self).states.choices == old(self).states.choices,
            !final(self).states.focus,
    {
        self.states.focus = false;
    }

    /// Gives the focus.
    pub fn active(&mut self)
        ensures
            final(self).props == old(self).props,
            final(self).states.choice == old(self).states.choice,
            final(self).states.choices == old(self).states.choices,
            final(self).states.focus,
    {
        self.states.focus = true;
    }
}

} // verus!
