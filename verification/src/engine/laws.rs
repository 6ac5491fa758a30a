//! What holds of every pass, whatever the host and the backend reply.

use vstd::prelude::*;
use crate::engine::client_action::ClientActionView;
use crate::engine::composition::{transition, typed_text, CompositionState, CompositionView};
use crate::engine::full_width::fullwidth_text;
use crate::engine::controller::{acted, unhandled};
use crate::engine::executor::{
    accepted, asked, begun, lemma_demand_stages, lemma_seek, run, seek, stages,
    ComposingTextView, EffectView, Failure, PassView, ProgressView, ReplyView, SettlementView,
};
use crate::engine::input_mode::InputMode;
use crate::engine::user_action::UserAction;
use crate::tsf::factory::FactoryView;

verus! {

/// What a settlement owes to the service that the pass started from: the
/// record is well formed; a failed backend call leaves the service as it
/// was; a failed host call leaves it with a cleared record; and only a pass
/// without a failure counts as handled.
pub open spec fn settles(origin: FactoryView, settlement: SettlementView) -> bool {
    &&& settlement.factory.wf()
    &&& settlement.factory.candidate_surface == origin.candidate_surface
    &&& match settlement.failure {
        Some(Failure::Backend) => settlement.factory == origin && !settlement.handled,
        Some(Failure::HostBinding) => settlement.factory == origin.cleared()
            && !settlement.handled,
        None => settlement.handled,
    }
}

/// Where the transition table has no entry for a key, the key is not
/// handled, nothing is asked of the host or the backend, and the service is
/// unchanged.
pub proof fn law_no_entry_changes_nothing(factory: FactoryView, action: UserAction)
    requires
        transition(
            factory.composition.state,
            action,
            factory.mode,
            factory.composition.composed_text.len(),
        ) is None,
    ensures
        acted(factory, action) == ProgressView::Settled(
            SettlementView { factory, handled: false, failure: None },
        ),
{
}

/// The states reserved for candidate browsing handle no key at all.
pub proof fn law_reserved_states_handle_nothing(factory: FactoryView, action: UserAction)
    requires
        factory.composition.state == CompositionState::Previewing || factory.composition.state
            == CompositionState::Selecting,
    ensures
        acted(factory, action) == unhandled(factory),
{
}

/// In Latin mode, typing outside a session is left to the host.
pub proof fn law_latin_mode_gate(factory: FactoryView, action: UserAction)
    requires
        factory.composition.state == CompositionState::Idle,
        factory.mode == InputMode::Latin,
        action is Input || action is Number,
    ensures
        transition(
            factory.composition.state,
            action,
            factory.mode,
            factory.composition.composed_text.len(),
        ) is None,
        acted(factory, action) == unhandled(factory),
{
}

/// A reply that is not accepted settles the pass at once: a backend call
/// rolls the service back to what it was before the pass, a host call
/// clears its record.
pub proof fn law_refused_reply_settles(pass: PassView, reply: ReplyView)
    requires
        pass.wf(),
        !accepted(pass.pending()->0, reply),
    ensures
        pass.pending()->0.is_backend() ==> pass.resumed(reply) == ProgressView::Settled(
            SettlementView {
                factory: pass.origin,
                handled: false,
                failure: Some(Failure::Backend),
            },
        ),
        !pass.pending()->0.is_backend() ==> pass.resumed(reply) == ProgressView::Settled(
            SettlementView {
                factory: pass.origin.cleared(),
                handled: false,
                failure: Some(Failure::HostBinding),
            },
        ),
{
}

/// If the backend fails to append, the pass is over, the key is not
/// handled, and the service is what it was before the pass.
pub proof fn law_failed_append_rolls_back(pass: PassView)
    requires
        pass.wf(),
        pass.pending()->0 is Append,
    ensures
        pass.resumed(ReplyView::Failed) == ProgressView::Settled(
            SettlementView {
                factory: pass.origin,
                handled: false,
                failure: Some(Failure::Backend),
            },
        ),
{
}

/// A step of a pass keeps the service that the pass started from, and
/// settles only as `settles` allows.
pub proof fn law_step_keeps_origin(pass: PassView, reply: ReplyView)
    requires
        pass.wf(),
    ensures
        match pass.resumed(reply) {
            ProgressView::Pending(next) => next.wf() && next.origin == pass.origin && (
            pass.transition == CompositionState::Idle ==> next.transition
                == CompositionState::Idle),
            ProgressView::Settled(settlement) => settles(pass.origin, settlement) && (
            pass.transition == CompositionState::Idle && settlement.handled
                ==> settlement.factory.composition == CompositionView::idle()),
        },
{
    if accepted(pass.pending()->0, reply) {
        lemma_seek(pass.absorbed(reply));
    }
}

/// However a pass goes on from here, it keeps the service that it started
/// from, and when it settles it settles as `settles` allows.
pub proof fn law_run_keeps_origin(pass: PassView, replies: Seq<ReplyView>)
    requires
        pass.wf(),
    ensures
        match run(ProgressView::Pending(pass), replies) {
            ProgressView::Pending(next) => next.wf() && next.origin == pass.origin,
            ProgressView::Settled(settlement) => settles(pass.origin, settlement),
        },
    decreases replies.len(),
{
    if replies.len() > 0 {
        law_step_keeps_origin(pass, replies[0]);
        match pass.resumed(replies[0]) {
            ProgressView::Pending(next) => {
                law_run_keeps_origin(next, replies.drop_first());
            },
            ProgressView::Settled(settlement) => {
                lemma_run_settled(settlement, replies.drop_first());
            },
        }
    }
}

/// A settled pass stays settled.
pub proof fn lemma_run_settled(settlement: SettlementView, replies: Seq<ReplyView>)
    ensures
        run(ProgressView::Settled(settlement), replies) == ProgressView::Settled(settlement),
    decreases replies.len(),
{
    if replies.len() > 0 {
        lemma_run_settled(settlement, replies.drop_first());
    }
}

/// The record invariant and the rollback, for every pass from its start:
/// whatever actions are carried out towards whatever state, and whatever is
/// replied, the pass settles with a well-formed record; after a failed
/// backend call the service is what it was before the pass and the key is
/// not handled; after a failed host call the record is cleared.
pub proof fn law_pass_settles_soundly(
    factory: FactoryView,
    actions: Seq<ClientActionView>,
    target: CompositionState,
    replies: Seq<ReplyView>,
)
    requires
        factory.wf(),
    ensures
        match run(begun(factory, actions, target), replies) {
            ProgressView::Pending(next) => next.wf() && next.origin == factory,
            ProgressView::Settled(settlement) => settles(factory, settlement),
        },
{
    let start = PassView {
        origin: factory,
        composed_text: factory.composition.composed_text,
        suggestions: factory.composition.suggestions,
        mode: factory.mode,
        transition: target,
        actions,
        at: 0,
        stage: 0,
    };
    lemma_seek(start);
    match seek(start) {
        ProgressView::Pending(first) => {
            law_run_keeps_origin(first, replies);
        },
        ProgressView::Settled(settlement) => {
            lemma_run_settled(settlement, replies);
        },
    }
}

/// The same for a key: the service that a handled or unhandled key leaves
/// behind has a well-formed record.
pub proof fn law_key_settles_soundly(
    factory: FactoryView,
    action: UserAction,
    replies: Seq<ReplyView>,
)
    requires
        factory.wf(),
    ensures
        match run(acted(factory, action), replies) {
            ProgressView::Pending(next) => next.wf() && next.origin == factory,
            ProgressView::Settled(settlement) => settlement.factory.wf() && (settlement.failure
                == Some(Failure::Backend) ==> settlement.factory == factory && !settlement.handled),
        },
{
    match transition(
        factory.composition.state,
        action,
        factory.mode,
        factory.composition.composed_text.len(),
    ) {
        Some(t) => {
            law_pass_settles_soundly(factory, t.actions, t.next, replies);
        },
        None => {
            lemma_run_settled(
                SettlementView { factory, handled: false, failure: None },
                replies,
            );
        },
    }
}

/// A pass on its way to the idle state stays on that way, and when it goes
/// through, the record that it leaves has no text and no suggestions.
pub proof fn law_run_to_idle(pass: PassView, replies: Seq<ReplyView>)
    requires
        pass.wf(),
        pass.transition == CompositionState::Idle,
    ensures
        match run(ProgressView::Pending(pass), replies) {
            ProgressView::Pending(next) => next.transition == CompositionState::Idle,
            ProgressView::Settled(settlement) => settlement.handled ==> settlement.factory.composition
                == CompositionView::idle(),
        },
    decreases replies.len(),
{
    if replies.len() > 0 {
        law_step_keeps_origin(pass, replies[0]);
        match pass.resumed(replies[0]) {
            ProgressView::Pending(next) => {
                law_run_to_idle(next, replies.drop_first());
            },
            ProgressView::Settled(settlement) => {
                lemma_run_settled(settlement, replies.drop_first());
            },
        }
    }
}

/// A key whose table entry leads to the idle state leaves an empty record
/// behind whenever it is handled, whatever the text was before and
/// whatever the backend answered on the way.
pub proof fn law_session_end_leaves_nothing(
    factory: FactoryView,
    action: UserAction,
    replies: Seq<ReplyView>,
)
    requires
        factory.wf(),
        transition(
            factory.composition.state,
            action,
            factory.mode,
            factory.composition.composed_text.len(),
        ) matches Some(t) && t.next == CompositionState::Idle,
    ensures
        run(acted(factory, action), replies) matches ProgressView::Settled(settlement)
            ==> (settlement.handled ==> settlement.factory.composition == CompositionView::idle()),
{
    let t = transition(
        factory.composition.state,
        action,
        factory.mode,
        factory.composition.composed_text.len(),
    )->0;
    let start = PassView {
        origin: factory,
        composed_text: factory.composition.composed_text,
        suggestions: factory.composition.suggestions,
        mode: factory.mode,
        transition: t.next,
        actions: t.actions,
        at: 0,
        stage: 0,
    };
    lemma_seek(start);
    match seek(start) {
        ProgressView::Pending(first) => {
            law_run_to_idle(first, replies);
        },
        ProgressView::Settled(settlement) => {
            lemma_run_settled(settlement, replies);
        },
    }
}

/// Escape discards: from a session, however long its text, a handled
/// escape leaves the idle state with no text and no suggestions.
pub proof fn law_escape_discards(factory: FactoryView, replies: Seq<ReplyView>)
    requires
        factory.wf(),
        factory.composition.state == CompositionState::Composing,
    ensures
        run(acted(factory, UserAction::Escape), replies) matches ProgressView::Settled(settlement)
            ==> (settlement.handled ==> settlement.factory.composition == CompositionView::idle()),
{
    law_session_end_leaves_nothing(factory, UserAction::Escape, replies);
}

/// The mode that the toggle key leads to: the other one outside a session,
/// Latin from within a session, whatever the mode was.
pub open spec fn toggled_mode(factory: FactoryView) -> InputMode {
    if factory.composition.state == CompositionState::Idle {
        factory.mode.opposite()
    } else {
        InputMode::Latin
    }
}

/// The toggle key asks the backend to clear, and nothing else. Once that is
/// acknowledged the key is handled: the mode is the toggled one, and the
/// session, if there was one, is over with nothing left of it. If the clear
/// fails, mode and record stay as they were.
pub proof fn law_toggle(factory: FactoryView, reply: ReplyView)
    requires
        factory.composition.state == CompositionState::Idle || factory.composition.state
            == CompositionState::Composing,
    ensures
        asked(acted(factory, UserAction::ToggleInputMode), seq![reply]) == seq![EffectView::Clear],
        reply !is Failed ==> run(acted(factory, UserAction::ToggleInputMode), seq![reply])
            == ProgressView::Settled(
            SettlementView {
                factory: FactoryView {
                    composition: CompositionView::idle(),
                    mode: toggled_mode(factory),
                    candidate_surface: factory.candidate_surface,
                },
                handled: true,
                failure: None,
            },
        ),
        reply is Failed ==> run(acted(factory, UserAction::ToggleInputMode), seq![reply])
            == ProgressView::Settled(
            SettlementView { factory, handled: false, failure: Some(Failure::Backend) },
        ),
{
    reveal_with_fuel(seek, 3);
    reveal_with_fuel(run, 2);
    reveal_with_fuel(asked, 2);
    let replies = seq![reply];
    assert(replies.drop_first() =~= Seq::<ReplyView>::empty());
    let first = acted(factory, UserAction::ToggleInputMode);
    assert(first is Pending);
    let pass = first->Pending_0;
    assert(pass.pending() == Some(EffectView::Clear));
    assert(asked(first, replies) =~= seq![EffectView::Clear]);
}

/// The toggle is not symmetric: outside a session it flips the mode either
/// way, from within a session it leads to Latin and never back to kana.
pub proof fn law_toggle_asymmetry(factory: FactoryView)
    ensures
        factory.composition.state == CompositionState::Idle && factory.mode == InputMode::Kana
            ==> toggled_mode(factory) == InputMode::Latin,
        factory.composition.state == CompositionState::Idle && factory.mode == InputMode::Latin
            ==> toggled_mode(factory) == InputMode::Kana,
        factory.composition.state == CompositionState::Composing ==> toggled_mode(factory)
            == InputMode::Latin,
{
}

/// The replies of a host and a backend that do as they are asked, for a key
/// that appends: the session calls are acknowledged, the backend answers
/// with `text`, and the update of the surface is acknowledged.
pub open spec fn typing_replies(
    factory: FactoryView,
    text: ComposingTextView,
) -> Seq<ReplyView> {
    let tail = seq![ReplyView::Composed(text), ReplyView::Done];
    if factory.composition.state == CompositionState::Composing {
        tail
    } else if factory.candidate_surface {
        seq![ReplyView::Done, ReplyView::Done] + tail
    } else {
        seq![ReplyView::Done] + tail
    }
}

/// What the host is asked for when a key appends.
pub open spec fn typing_effects(
    factory: FactoryView,
    action: UserAction,
    text: ComposingTextView,
) -> Seq<EffectView> {
    let unit = if factory.mode == InputMode::Kana {
        fullwidth_text(typed_text(action))
    } else {
        typed_text(action)
    };
    let tail = seq![EffectView::Append(unit), EffectView::UpdateText(text.spell)];
    if factory.composition.state == CompositionState::Composing {
        tail
    } else if factory.candidate_surface {
        seq![EffectView::BeginSession, EffectView::ShowCandidateSurface] + tail
    } else {
        seq![EffectView::BeginSession] + tail
    }
}

/// Typing: a character or digit key in a session, or in kana mode outside
/// of one, sends its text to the backend (in kana mode in full width) and
/// takes the backend's answer for the record: the session is open, and text
/// and suggestions are the backend's. Outside a session the session is
/// opened first.
pub proof fn law_typing(factory: FactoryView, action: UserAction, text: ComposingTextView)
    requires
        action is Input || action is Number,
        factory.composition.state == CompositionState::Composing || (factory.composition.state
            == CompositionState::Idle && factory.mode == InputMode::Kana),
    ensures
        asked(acted(factory, action), typing_replies(factory, text)) == typing_effects(
            factory,
            action,
            text,
        ),
        run(acted(factory, action), typing_replies(factory, text)) == ProgressView::Settled(
            SettlementView {
                factory: FactoryView {
                    composition: CompositionView {
                        state: CompositionState::Composing,
                        composed_text: text.spell,
                        suggestions: text.suggestions,
                    },
                    ..factory
                },
                handled: true,
                failure: None,
            },
        ),
{
    reveal_with_fuel(seek, 4);
    reveal_with_fuel(run, 6);
    reveal_with_fuel(asked, 6);
    let replies = typing_replies(factory, text);
    let first = acted(factory, action);
    assert(first is Pending);
    lemma_unroll(first, replies);
    let second = first->Pending_0.resumed(replies[0]);
    assert(second is Pending);
    lemma_unroll(second, replies.drop_first());
    let third = second->Pending_0.resumed(replies[1]);
    if factory.composition.state == CompositionState::Composing {
        assert(replies.drop_first().drop_first() =~= Seq::<ReplyView>::empty());
        assert(asked(first, replies) =~= typing_effects(factory, action, text));
    } else {
        assert(third is Pending);
        lemma_unroll(third, replies.drop_first().drop_first());
        let fourth = third->Pending_0.resumed(replies[2]);
        if factory.candidate_surface {
            assert(fourth is Pending);
            lemma_unroll(fourth, replies.drop_first().drop_first().drop_first());
            assert(replies.drop_first().drop_first().drop_first().drop_first() =~= Seq::<
                ReplyView,
            >::empty());
            assert(asked(first, replies) =~= typing_effects(factory, action, text));
        } else {
            assert(replies.drop_first().drop_first().drop_first() =~= Seq::<ReplyView>::empty());
            assert(asked(first, replies) =~= typing_effects(factory, action, text));
        }
    }
}

/// Acknowledgements of the calls that end a session: commit, end of
/// session, clear and, with a candidate surface, its hiding.
pub open spec fn ending_replies(factory: FactoryView) -> Seq<ReplyView> {
    if factory.candidate_surface {
        seq![ReplyView::Done, ReplyView::Done, ReplyView::Done, ReplyView::Done]
    } else {
        seq![ReplyView::Done, ReplyView::Done, ReplyView::Done]
    }
}

/// The calls that end a session and insert `text` into the host document.
pub open spec fn ending_effects(factory: FactoryView, text: Seq<char>) -> Seq<EffectView> {
    let calls = seq![EffectView::CommitText(text), EffectView::EndSession, EffectView::Clear];
    if factory.candidate_surface {
        calls.push(EffectView::HideCandidateSurface)
    } else {
        calls
    }
}

/// The service after a session has ended.
pub open spec fn ended(factory: FactoryView) -> ProgressView {
    ProgressView::Settled(
        SettlementView { factory: factory.cleared(), handled: true, failure: None },
    )
}

/// Enter commits: the text of the session goes into the host document, the
/// session is closed, the backend is cleared, and the record is idle.
pub proof fn law_enter_commits(factory: FactoryView)
    requires
        factory.composition.state == CompositionState::Composing,
    ensures
        asked(acted(factory, UserAction::Enter), ending_replies(factory)) == ending_effects(
            factory,
            factory.composition.composed_text,
        ),
        run(acted(factory, UserAction::Enter), ending_replies(factory)) == ended(factory),
{
    reveal_with_fuel(seek, 4);
    let replies = ending_replies(factory);
    let first = acted(factory, UserAction::Enter);
    lemma_ending(first->Pending_0, replies);
}

/// A session ended from outside goes the same way, from whatever state:
/// the text is committed, the session closed, and the record idle.
pub proof fn law_termination_commits(factory: FactoryView)
    ensures
        asked(
            begun(factory, seq![ClientActionView::EndComposition], CompositionState::Idle),
            ending_replies(factory),
        ) == ending_effects(factory, factory.composition.composed_text),
        run(
            begun(factory, seq![ClientActionView::EndComposition], CompositionState::Idle),
            ending_replies(factory),
        ) == ended(factory),
{
    reveal_with_fuel(seek, 2);
    let first = begun(factory, seq![ClientActionView::EndComposition], CompositionState::Idle);
    lemma_ending(first->Pending_0, ending_replies(factory));
}

/// The end of a session from the pass that is about to commit its text.
proof fn lemma_ending(pass: PassView, replies: Seq<ReplyView>)
    requires
        pass.at + 1 == pass.actions.len(),
        pass.actions[pass.at as int] == ClientActionView::EndComposition,
        pass.stage == 0,
        pass.transition == CompositionState::Idle,
        replies == ending_replies(pass.origin),
    ensures
        asked(ProgressView::Pending(pass), replies) == ending_effects(
            pass.origin,
            pass.composed_text,
        ),
        run(ProgressView::Pending(pass), replies) == ProgressView::Settled(
            SettlementView {
                factory: FactoryView {
                    composition: CompositionView::idle(),
                    mode: pass.mode,
                    candidate_surface: pass.origin.candidate_surface,
                },
                handled: true,
                failure: None,
            },
        ),
{
    reveal_with_fuel(seek, 4);
    reveal_with_fuel(run, 6);
    reveal_with_fuel(asked, 6);
    let first = ProgressView::Pending(pass);
    lemma_unroll(first, replies);
    let second = pass.resumed(replies[0]);
    assert(second is Pending);
    lemma_unroll(second, replies.drop_first());
    let third = second->Pending_0.resumed(replies[1]);
    assert(third is Pending);
    lemma_unroll(third, replies.drop_first().drop_first());
    let fourth = third->Pending_0.resumed(replies[2]);
    if pass.origin.candidate_surface {
        assert(fourth is Pending);
        lemma_unroll(fourth, replies.drop_first().drop_first().drop_first());
        assert(replies.drop_first().drop_first().drop_first().drop_first() =~= Seq::<
            ReplyView,
        >::empty());
    } else {
        assert(replies.drop_first().drop_first().drop_first() =~= Seq::<ReplyView>::empty());
    }
    assert(asked(first, replies) =~= ending_effects(pass.origin, pass.composed_text));
}

/// A removal that ends the session, as escape and the backspace on a text
/// of one character ask for: the backend drops its last unit and answers
/// with `text`, the surface shows that, and the session ends.
pub proof fn law_removal_ends_session(
    factory: FactoryView,
    action: UserAction,
    text: ComposingTextView,
)
    requires
        factory.composition.state == CompositionState::Composing,
        action == UserAction::Escape || (action == UserAction::Backspace
            && factory.composition.composed_text.len() == 1),
    ensures
        asked(
            acted(factory, action),
            seq![ReplyView::Composed(text), ReplyView::Done] + ending_replies(factory),
        ) == seq![EffectView::Remove, EffectView::UpdateText(text.spell)] + ending_effects(
            factory,
            text.spell,
        ),
        run(
            acted(factory, action),
            seq![ReplyView::Composed(text), ReplyView::Done] + ending_replies(factory),
        ) == ended(factory),
{
    reveal_with_fuel(seek, 4);
    reveal_with_fuel(run, 3);
    reveal_with_fuel(asked, 3);
    let replies = seq![ReplyView::Composed(text), ReplyView::Done] + ending_replies(factory);
    let first = acted(factory, action);
    assert(first is Pending);
    lemma_unroll(first, replies);
    let second = first->Pending_0.resumed(replies[0]);
    assert(second is Pending);
    lemma_unroll(second, replies.drop_first());
    let third = second->Pending_0.resumed(replies[1]);
    assert(third is Pending);
    assert(replies.drop_first().drop_first() =~= ending_replies(factory));
    lemma_ending(third->Pending_0, ending_replies(factory));
    assert(asked(first, replies) =~= seq![
        EffectView::Remove,
        EffectView::UpdateText(text.spell),
    ] + ending_effects(factory, text.spell));
}

/// Backspace on a longer text: the backend drops its last unit and its
/// answer becomes the record. The session goes on, unless the answer has no
/// text left: then the record is idle, whatever length the text had before.
pub proof fn law_backspace_removes(factory: FactoryView, text: ComposingTextView)
    requires
        factory.composition.state == CompositionState::Composing,
        factory.composition.composed_text.len() != 1,
    ensures
        asked(
            acted(factory, UserAction::Backspace),
            seq![ReplyView::Composed(text), ReplyView::Done],
        ) == seq![EffectView::Remove, EffectView::UpdateText(text.spell)],
        run(
            acted(factory, UserAction::Backspace),
            seq![ReplyView::Composed(text), ReplyView::Done],
        ) == ProgressView::Settled(
            SettlementView {
                factory: FactoryView {
                    composition: if text.spell.len() == 0 {
                        CompositionView::idle()
                    } else {
                        CompositionView {
                            state: CompositionState::Composing,
                            composed_text: text.spell,
                            suggestions: text.suggestions,
                        }
                    },
                    ..factory
                },
                handled: true,
                failure: None,
            },
        ),
{
    reveal_with_fuel(seek, 4);
    reveal_with_fuel(run, 3);
    reveal_with_fuel(asked, 3);
    let replies = seq![ReplyView::Composed(text), ReplyView::Done];
    let first = acted(factory, UserAction::Backspace);
    assert(first is Pending);
    lemma_unroll(first, replies);
    let second = first->Pending_0.resumed(replies[0]);
    assert(second is Pending);
    lemma_unroll(second, replies.drop_first());
    assert(replies.drop_first().drop_first() =~= Seq::<ReplyView>::empty());
    assert(asked(first, replies) =~= seq![
        EffectView::Remove,
        EffectView::UpdateText(text.spell),
    ]);
}

/// The arrow keys are handled within a session and change nothing: there
/// is no cursor to move yet and no candidate to browse, so nothing is asked
/// of the host or the backend.
pub proof fn law_arrows_are_idle(factory: FactoryView, action: UserAction)
    requires
        factory.composition.state == CompositionState::Composing,
        action is Navigation,
    ensures
        acted(factory, action) == ProgressView::Settled(
            SettlementView { factory, handled: true, failure: None },
        ),
{
    reveal_with_fuel(seek, 3);
}

/// The number of effects that the actions from a position on have.
pub open spec fn owed(actions: Seq<ClientActionView>, at: nat, candidate_surface: bool) -> nat
    decreases actions.len() - at,
{
    if at >= actions.len() {
        0
    } else {
        stages(actions[at as int], candidate_surface) + owed(actions, at + 1, candidate_surface)
    }
}

/// The number of effects that a pass has yet to ask for, the pending one
/// among them.
pub open spec fn outstanding(pass: PassView) -> int {
    owed(pass.actions, pass.at, pass.origin.candidate_surface) - pass.stage
}

/// No action has more than four effects.
pub proof fn lemma_owed_bound(actions: Seq<ClientActionView>, at: nat, candidate_surface: bool)
    requires
        at <= actions.len(),
    ensures
        owed(actions, at, candidate_surface) <= 4 * (actions.len() - at),
    decreases actions.len() - at,
{
    if at < actions.len() {
        lemma_owed_bound(actions, at + 1, candidate_surface);
    }
}

proof fn lemma_seek_outstanding(pass: PassView)
    requires
        pass.at < pass.actions.len() ==> pass.stage <= stages(
            pass.actions[pass.at as int],
            pass.origin.candidate_surface,
        ),
    ensures
        seek(pass) matches ProgressView::Pending(found) ==> outstanding(found) == outstanding(pass)
            && outstanding(found) > 0,
    decreases pass.actions.len() - pass.at,
{
    if pass.at < pass.actions.len() {
        lemma_demand_stages(
            pass.actions[pass.at as int],
            pass.stage,
            pass.composed_text,
            pass.mode,
            pass.origin.candidate_surface,
        );
        if pass.pending() is None {
            lemma_seek_outstanding(PassView { at: pass.at + 1, stage: 0, ..pass });
        }
    }
}

/// Every accepted reply brings a pass one effect closer to its end.
pub proof fn law_step_is_progress(pass: PassView, reply: ReplyView)
    requires
        pass.wf(),
    ensures
        outstanding(pass) > 0,
        pass.resumed(reply) matches ProgressView::Pending(next) ==> outstanding(next)
            == outstanding(pass) - 1,
{
    lemma_demand_stages(
        pass.actions[pass.at as int],
        pass.stage,
        pass.composed_text,
        pass.mode,
        pass.origin.candidate_surface,
    );
    if accepted(pass.pending()->0, reply) {
        lemma_seek_outstanding(pass.absorbed(reply));
    }
}

/// A pass is finite: it has settled once the host has replied as often as
/// effects were outstanding.
pub proof fn law_run_is_finite(pass: PassView, replies: Seq<ReplyView>)
    requires
        pass.wf(),
        replies.len() >= outstanding(pass),
    ensures
        run(ProgressView::Pending(pass), replies) is Settled,
    decreases replies.len(),
{
    law_step_is_progress(pass, replies[0]);
    law_step_keeps_origin(pass, replies[0]);
    match pass.resumed(replies[0]) {
        ProgressView::Pending(next) => {
            law_run_is_finite(next, replies.drop_first());
        },
        ProgressView::Settled(settlement) => {
            lemma_run_settled(settlement, replies.drop_first());
        },
    }
}

/// No pass asks for more than four effects for each of its actions.
pub proof fn law_pass_is_finite(
    factory: FactoryView,
    actions: Seq<ClientActionView>,
    target: CompositionState,
    replies: Seq<ReplyView>,
)
    requires
        factory.wf(),
        replies.len() >= 4 * actions.len(),
    ensures
        run(begun(factory, actions, target), replies) is Settled,
{
    let start = PassView {
        origin: factory,
        composed_text: factory.composition.composed_text,
        suggestions: factory.composition.suggestions,
        mode: factory.mode,
        transition: target,
        actions,
        at: 0,
        stage: 0,
    };
    lemma_seek(start);
    lemma_seek_outstanding(start);
    lemma_owed_bound(actions, 0, factory.candidate_surface);
    match seek(start) {
        ProgressView::Pending(first) => {
            law_run_is_finite(first, replies);
        },
        ProgressView::Settled(settlement) => {
            lemma_run_settled(settlement, replies);
        },
    }
}

/// One step of a run with a reply at hand.
proof fn lemma_unroll(progress: ProgressView, replies: Seq<ReplyView>)
    requires
        progress matches ProgressView::Pending(pass) && pass.pending() is Some,
        replies.len() > 0,
    ensures
        run(progress, replies) == run(
            progress->Pending_0.resumed(replies[0]),
            replies.drop_first(),
        ),
        asked(progress, replies) == seq![progress->Pending_0.pending()->0] + asked(
            progress->Pending_0.resumed(replies[0]),
            replies.drop_first(),
        ),
        replies.drop_first().len() == replies.len() - 1,
        forall|i: int| 0 <= i < replies.len() - 1 ==> replies.drop_first()[i] == replies[i + 1],
{
}

} // verus!
