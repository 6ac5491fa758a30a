//! The composition controller: from a keystroke to a pass over the record.

use vstd::prelude::*;
use crate::engine::client_action::{actions_view, ClientAction, ClientActionView};
use crate::engine::composition::{step, transition, CompositionState};
use crate::engine::executor::{begin, begun, Progress, ProgressView, Settlement, SettlementView};
use crate::engine::user_action::{classified, classify, Modifiers, UserAction};
use crate::tsf::factory::{FactoryView, TextServiceFactory};

verus! {

/// The settlement of a key that the controller leaves to the host: nothing
/// has changed and nothing was asked of anyone.
pub open spec fn unhandled(factory: FactoryView) -> ProgressView {
    ProgressView::Settled(SettlementView { factory, handled: false, failure: None })
}

/// What an action does to a service: the pass that the transition table
/// prescribes for it, or nothing where the table has no entry.
pub open spec fn acted(factory: FactoryView, action: UserAction) -> ProgressView {
    match transition(
        factory.composition.state,
        action,
        factory.mode,
        factory.composition.composed_text.len(),
    ) {
        Some(t) => begun(factory, t.actions, t.next),
        None => unhandled(factory),
    }
}

/// What a keystroke does to a service.
pub open spec fn struck(factory: FactoryView, raw_key: usize, modifiers: Modifiers) -> ProgressView {
    match classified(raw_key, modifiers) {
        Some(action) => acted(factory, action),
        None => unhandled(factory),
    }
}

impl TextServiceFactory {
    /// Takes a keystroke. A key held together with control, a key without a
    /// meaning and a key without an entry in the transition table are left
    /// to the host, and the service comes back as it went in.
    pub fn handle_key(self, raw_key: usize, modifiers: Modifiers) -> (r: Progress)
        ensures
            r@ == struck(self@, raw_key, modifiers),
            struck(self@, raw_key, modifiers) == unhandled(self@) ==> r == Progress::Settled(
                Settlement { factory: self, handled: false, failure: None },
            ),
    {
        if modifiers.control {
            return Progress::Settled(Settlement { factory: self, handled: false, failure: None });
        }
        match classify(raw_key, modifiers) {
            Some(action) => self.handle_user_action(action),
            None => Progress::Settled(Settlement { factory: self, handled: false, failure: None }),
        }
    }

    /// Takes a classified keystroke.
    pub fn handle_user_action(self, action: UserAction) -> (r: Progress)
        ensures
            r@ == acted(self@, action),
            acted(self@, action) == unhandled(self@) ==> r == Progress::Settled(
                Settlement { factory: self, handled: false, failure: None },
            ),
    {
        let record = self.composition();
        let buffer_length = record.composed_text.as_str().unicode_len();
        match step(record.state, action, self.mode(), buffer_length) {
            Some(t) => {
                proof {
                    lemma_begun_is_handled(self@, actions_view(t.actions@), t.next);
                }
                self.handle_action(t.actions, t.next)
            },
            None => Progress::Settled(Settlement { factory: self, handled: false, failure: None }),
        }
    }

    /// Takes the host's word that the session was ended from outside, as
    /// when the user clicks elsewhere: whatever text there is gets
    /// committed and the record goes idle.
    pub fn on_composition_terminated(self) -> (r: Progress)
        ensures
            r@ == begun(self@, seq![ClientActionView::EndComposition], CompositionState::Idle),
    {
        let mut actions = Vec::new();
        actions.push(ClientAction::EndComposition);
        assert(actions_view(actions@) =~= seq![ClientActionView::EndComposition]);
        self.handle_action(actions, CompositionState::Idle)
    }

    /// Starts a pass that carries the actions out and then commits the
    /// record with `transition` as its state, unless a removal that leaves
    /// no text has ended the session first.
    pub fn handle_action(self, actions: Vec<ClientAction>, transition: CompositionState) -> (r:
        Progress)
        ensures
            r@ == begun(self@, actions_view(actions@), transition),
    {
        begin(self, actions, transition)
    }
}

/// A pass that was begun is never mistaken for a key left to the host: it
/// is pending, or it settled as handled.
pub proof fn lemma_begun_is_handled(
    factory: FactoryView,
    actions: Seq<ClientActionView>,
    transition: CompositionState,
)
    ensures
        begun(factory, actions, transition) != unhandled(factory),
{
    crate::engine::executor::lemma_seek(
        crate::engine::executor::PassView {
            origin: factory,
            composed_text: factory.composition.composed_text,
            suggestions: factory.composition.suggestions,
            mode: factory.mode,
            transition,
            actions,
            at: 0,
            stage: 0,
        },
    );
}

} // verus!
