//! The units of work that a keystroke turns into.

use vstd::prelude::*;
use crate::engine::input_mode::InputMode;

verus! {

#[derive(Debug, PartialEq, Eq)]
pub enum ClientAction {
    StartComposition,
    EndComposition,
    AppendText(String),
    RemoveText,
    MoveCursor(i8),
    SetIMEMode(InputMode),
}

/// A client action with its text as a sequence of characters.
pub ghost enum ClientActionView {
    StartComposition,
    EndComposition,
    AppendText(Seq<char>),
    RemoveText,
    MoveCursor(int),
    SetIMEMode(InputMode),
}

impl View for ClientAction {
    type V = ClientActionView;

    open spec fn view(&self) -> ClientActionView {
        match self {
            ClientAction::StartComposition => ClientActionView::StartComposition,
            ClientAction::EndComposition => ClientActionView::EndComposition,
            ClientAction::AppendText(text) => ClientActionView::AppendText(text@),
            ClientAction::RemoveText => ClientActionView::RemoveText,
            ClientAction::MoveCursor(offset) => ClientActionView::MoveCursor(*offset as int),
            ClientAction::SetIMEMode(mode) => ClientActionView::SetIMEMode(*mode),
        }
    }
}

impl Clone for ClientAction {
    fn clone(&self) -> (r: Self)
        ensures
            r@ == self@,
    {
        match self {
            ClientAction::StartComposition => ClientAction::StartComposition,
            ClientAction::EndComposition => ClientAction::EndComposition,
            ClientAction::AppendText(text) => ClientAction::AppendText(text.clone()),
            ClientAction::RemoveText => ClientAction::RemoveText,
            ClientAction::MoveCursor(offset) => ClientAction::MoveCursor(*offset),
            ClientAction::SetIMEMode(mode) => ClientAction::SetIMEMode(*mode),
        }
    }
}

/// The views of a list of actions, in order.
pub open spec fn actions_view(actions: Seq<ClientAction>) -> Seq<ClientActionView> {
    Seq::new(actions.len(), |i: int| actions[i]@)
}

} // verus!
