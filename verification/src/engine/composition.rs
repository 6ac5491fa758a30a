//! The composition record and the transition table of a session.

use vstd::prelude::*;
use crate::engine::client_action::{actions_view, ClientAction, ClientActionView};
use crate::engine::text::{char_text, decimal, decimal_text};
use crate::engine::input_mode::InputMode;
use crate::engine::user_action::{Navigation, UserAction};

verus! {

#[derive(Clone, Copy, Debug, PartialEq, Eq, Structural)]
pub enum CompositionState {
    /// No session is open: where every session starts and ends.
    Idle,
    /// A session is open and its text is being spelled.
    Composing,
    /// Reserved for browsing candidates.
    Previewing,
    /// Reserved for browsing candidates.
    Selecting,
}

impl Default for CompositionState {
    fn default() -> (r: Self)
        ensures
            r == CompositionState::Idle,
    {
        CompositionState::Idle
    }
}

/// An alternative rendering of the composed text, offered for selection.
#[derive(Debug, PartialEq, Eq)]
pub struct Candidate {
    pub text: String,
    pub subtext: String,
    /// How much of the input this candidate stands for.
    pub corresponding_count: i32,
}

pub ghost struct CandidateView {
    pub text: Seq<char>,
    pub subtext: Seq<char>,
    pub corresponding_count: int,
}

impl View for Candidate {
    type V = CandidateView;

    open spec fn view(&self) -> CandidateView {
        CandidateView {
            text: self.text@,
            subtext: self.subtext@,
            corresponding_count: self.corresponding_count as int,
        }
    }
}

impl Clone for Candidate {
    fn clone(&self) -> (r: Self)
        ensures
            r == *self,
    {
        Candidate {
            text: self.text.clone(),
            subtext: self.subtext.clone(),
            corresponding_count: self.corresponding_count,
        }
    }
}

/// The views of a list of candidates, in order.
pub open spec fn candidates_view(candidates: Seq<Candidate>) -> Seq<CandidateView> {
    Seq::new(candidates.len(), |i: int| candidates[i]@)
}

/// The session data of one text-entry context.
#[derive(Debug, PartialEq, Eq)]
pub struct Composition {
    pub state: CompositionState,
    /// The text shown to the user, which a commit would insert.
    pub composed_text: String,
    pub suggestions: Vec<Candidate>,
}

pub ghost struct CompositionView {
    pub state: CompositionState,
    pub composed_text: Seq<char>,
    pub suggestions: Seq<CandidateView>,
}

impl CompositionView {
    /// The record of a context without a session.
    pub open spec fn idle() -> CompositionView {
        CompositionView {
            state: CompositionState::Idle,
            composed_text: Seq::empty(),
            suggestions: Seq::empty(),
        }
    }

    /// Outside a session the record holds no text and no suggestions.
    pub open spec fn wf(self) -> bool {
        self.state == CompositionState::Idle ==> self == CompositionView::idle()
    }
}

impl View for Composition {
    type V = CompositionView;

    open spec fn view(&self) -> CompositionView {
        CompositionView {
            state: self.state,
            composed_text: self.composed_text@,
            suggestions: candidates_view(self.suggestions@),
        }
    }
}

impl Default for Composition {
    fn default() -> (r: Self)
        ensures
            r@ == CompositionView::idle(),
    {
        let r = Composition {
            state: CompositionState::Idle,
            composed_text: String::new(),
            suggestions: Vec::new(),
        };
        assert(r@.suggestions =~= Seq::empty());
        r
    }
}

impl Clone for Composition {
    fn clone(&self) -> (r: Self)
        ensures
            r@ == self@,
    {
        let suggestions = self.suggestions.clone();
        assert(suggestions@ =~= self.suggestions@);
        Composition {
            state: self.state,
            composed_text: self.composed_text.clone(),
            suggestions,
        }
    }
}

/// What a key does: the state that the session goes to and the work to
/// carry out on the way.
pub struct Transition {
    pub next: CompositionState,
    pub actions: Vec<ClientAction>,
}

pub ghost struct TransitionView {
    pub next: CompositionState,
    pub actions: Seq<ClientActionView>,
}

impl View for Transition {
    type V = TransitionView;

    open spec fn view(&self) -> TransitionView {
        TransitionView { next: self.next, actions: actions_view(self.actions@) }
    }
}

/// The text that an input or digit key appends; empty for every other key.
pub open spec fn typed_text(action: UserAction) -> Seq<char> {
    match action {
        UserAction::Input(c) => seq![c],
        UserAction::Number(n) => decimal(n as nat),
        _ => Seq::empty(),
    }
}

/// The transition table. `None` says that the table has no entry: the key is
/// not handled and nothing may change.
///
/// Outside a session only typing in kana mode and the mode toggle mean
/// anything. The two states reserved for candidate browsing have no entries.
pub open spec fn transition(
    state: CompositionState,
    action: UserAction,
    mode: InputMode,
    buffer_length: nat,
) -> Option<TransitionView> {
    match state {
        CompositionState::Idle => match action {
            UserAction::Input(_) | UserAction::Number(_) => if mode == InputMode::Kana {
                Some(
                    TransitionView {
                        next: CompositionState::Composing,
                        actions: seq![
                            ClientActionView::StartComposition,
                            ClientActionView::AppendText(typed_text(action)),
                        ],
                    },
                )
            } else {
                None
            },
            UserAction::ToggleInputMode => Some(
                TransitionView {
                    next: CompositionState::Idle,
                    actions: seq![ClientActionView::SetIMEMode(mode.opposite())],
                },
            ),
            _ => None,
        },
        CompositionState::Composing => match action {
            UserAction::Input(_) | UserAction::Number(_) => Some(
                TransitionView {
                    next: CompositionState::Composing,
                    actions: seq![ClientActionView::AppendText(typed_text(action))],
                },
            ),
            UserAction::Backspace => if buffer_length == 1 {
                Some(
                    TransitionView {
                        next: CompositionState::Idle,
                        actions: seq![
                            ClientActionView::RemoveText,
                            ClientActionView::EndComposition,
                        ],
                    },
                )
            } else {
                Some(
                    TransitionView {
                        next: CompositionState::Composing,
                        actions: seq![ClientActionView::RemoveText],
                    },
                )
            },
            UserAction::Enter => Some(
                TransitionView {
                    next: CompositionState::Idle,
                    actions: seq![ClientActionView::EndComposition],
                },
            ),
            UserAction::Escape => Some(
                TransitionView {
                    next: CompositionState::Idle,
                    actions: seq![ClientActionView::RemoveText, ClientActionView::EndComposition],
                },
            ),
            UserAction::Navigation(direction) => Some(
                TransitionView {
                    next: CompositionState::Composing,
                    actions: match direction {
                        Navigation::Right => seq![ClientActionView::MoveCursor(1)],
                        Navigation::Left => seq![ClientActionView::MoveCursor(-1)],
                        Navigation::Up | Navigation::Down => Seq::empty(),
                    },
                },
            ),
            UserAction::ToggleInputMode => Some(
                TransitionView {
                    next: CompositionState::Idle,
                    actions: seq![ClientActionView::SetIMEMode(InputMode::Latin)],
                },
            ),
        },
        CompositionState::Previewing | CompositionState::Selecting => None,
    }
}

/// The view of an optional transition.
pub open spec fn transition_view(t: Option<Transition>) -> Option<TransitionView> {
    match t {
        Some(t) => Some(t@),
        None => None,
    }
}

fn typed(action: UserAction) -> (r: String)
    ensures
        r@ == typed_text(action),
{
    match action {
        UserAction::Input(c) => char_text(c),
        UserAction::Number(n) => decimal_text(n),
        _ => String::new(),
    }
}

fn one(action: ClientAction) -> (r: Vec<ClientAction>)
    ensures
        actions_view(r@) == seq![action@],
{
    let mut actions = Vec::new();
    actions.push(action);
    assert(actions_view(actions@) =~= seq![action@]);
    actions
}

fn two(first: ClientAction, second: ClientAction) -> (r: Vec<ClientAction>)
    ensures
        actions_view(r@) == seq![first@, second@],
{
    let mut actions = Vec::new();
    actions.push(first);
    actions.push(second);
    assert(actions_view(actions@) =~= seq![first@, second@]);
    actions
}

fn none() -> (r: Vec<ClientAction>)
    ensures
        actions_view(r@) == Seq::<ClientActionView>::empty(),
{
    let actions = Vec::new();
    assert(actions_view(actions@) =~= Seq::<ClientActionView>::empty());
    actions
}

/// Looks a key up in the transition table.
///
/// `buffer_length` is the number of characters of the composed text before
/// the key.
pub fn step(
    state: CompositionState,
    action: UserAction,
    mode: InputMode,
    buffer_length: usize,
) -> (r: Option<Transition>)
    ensures
        transition_view(r) == transition(state, action, mode, buffer_length as nat),
{
    match state {
        CompositionState::Idle => match action {
            UserAction::Input(_) | UserAction::Number(_) => match mode {
                InputMode::Kana => Some(
                    Transition {
                        next: CompositionState::Composing,
                        actions: two(
                            ClientAction::StartComposition,
                            ClientAction::AppendText(typed(action)),
                        ),
                    },
                ),
                InputMode::Latin => None,
            },
            UserAction::ToggleInputMode => Some(
                Transition {
                    next: CompositionState::Idle,
                    actions: one(ClientAction::SetIMEMode(mode.toggled())),
                },
            ),
            _ => None,
        },
        CompositionState::Composing => match action {
            UserAction::Input(_) | UserAction::Number(_) => Some(
                Transition {
                    next: CompositionState::Composing,
                    actions: one(ClientAction::AppendText(typed(action))),
                },
            ),
            UserAction::Backspace => {
                if buffer_length == 1 {
                    Some(
                        Transition {
                            next: CompositionState::Idle,
                            actions: two(ClientAction::RemoveText, ClientAction::EndComposition),
                        },
                    )
                } else {
                    Some(
                        Transition {
                            next: CompositionState::Composing,
                            actions: one(ClientAction::RemoveText),
                        },
                    )
                }
            },
            UserAction::Enter => Some(
                Transition {
                    next: CompositionState::Idle,
                    actions: one(ClientAction::EndComposition),
                },
            ),
            UserAction::Escape => Some(
                Transition {
                    next: CompositionState::Idle,
                    actions: two(ClientAction::RemoveText, ClientAction::EndComposition),
                },
            ),
            UserAction::Navigation(direction) => {
                let actions = match direction {
                    Navigation::Right => one(ClientAction::MoveCursor(1)),
                    Navigation::Left => one(ClientAction::MoveCursor(-1)),
                    _ => none(),
                };
                Some(Transition { next: CompositionState::Composing, actions })
            },
            UserAction::ToggleInputMode => Some(
                Transition {
                    next: CompositionState::Idle,
                    actions: one(ClientAction::SetIMEMode(InputMode::Latin)),
                },
            ),
        },
        _ => None,
    }
}

} // verus!
