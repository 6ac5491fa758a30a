//! The executor of a pass: it carries a key's actions out, one effect at a
//! time, against a working copy of the record, and commits at the end.
//!
//! The executor never touches the host or the backend itself. It names the
//! next effect, the host performs it and reports what came of it, and the
//! executor decides what follows.

use vstd::prelude::*;
use crate::engine::client_action::{actions_view, ClientAction, ClientActionView};
use crate::engine::composition::{
    candidates_view, Candidate, CandidateView, Composition, CompositionState, CompositionView,
};
use crate::engine::full_width::{fullwidth_text, to_fullwidth};
use crate::engine::input_mode::InputMode;
use crate::tsf::factory::{FactoryView, TextServiceFactory};

verus! {

/// One call for the host to make, on the text surface or on the backend.
#[derive(Debug, PartialEq, Eq)]
pub enum Effect {
    /// Open a session on the text surface.
    BeginSession,
    ShowCandidateSurface,
    /// Insert the text into the host document.
    CommitText(String),
    /// Close the session on the text surface.
    EndSession,
    HideCandidateSurface,
    /// Show the text as the session's current spelling.
    UpdateText(String),
    /// Ask the backend to take one more unit of input.
    Append(String),
    /// Ask the backend to drop its last unit of input.
    Remove,
    /// Ask the backend to forget its input.
    Clear,
}

pub ghost enum EffectView {
    BeginSession,
    ShowCandidateSurface,
    CommitText(Seq<char>),
    EndSession,
    HideCandidateSurface,
    UpdateText(Seq<char>),
    Append(Seq<char>),
    Remove,
    Clear,
}

impl EffectView {
    /// Whether the call goes to the backend; every other goes to the host.
    pub open spec fn is_backend(self) -> bool {
        self is Append || self is Remove || self is Clear
    }

    /// Whether the backend answers the call with composed text.
    pub open spec fn expects_text(self) -> bool {
        self is Append || self is Remove
    }
}

impl View for Effect {
    type V = EffectView;

    open spec fn view(&self) -> EffectView {
        match self {
            Effect::BeginSession => EffectView::BeginSession,
            Effect::ShowCandidateSurface => EffectView::ShowCandidateSurface,
            Effect::CommitText(text) => EffectView::CommitText(text@),
            Effect::EndSession => EffectView::EndSession,
            Effect::HideCandidateSurface => EffectView::HideCandidateSurface,
            Effect::UpdateText(text) => EffectView::UpdateText(text@),
            Effect::Append(unit) => EffectView::Append(unit@),
            Effect::Remove => EffectView::Remove,
            Effect::Clear => EffectView::Clear,
        }
    }
}

impl Effect {
    pub fn is_backend(&self) -> (r: bool)
        ensures
            r == self@.is_backend(),
    {
        match self {
            Effect::Append(_) | Effect::Remove | Effect::Clear => true,
            _ => false,
        }
    }
}

/// What the backend holds after an append or a removal.
#[derive(Debug, PartialEq, Eq)]
pub struct ComposingText {
    pub spell: String,
    pub suggestions: Vec<Candidate>,
}

pub ghost struct ComposingTextView {
    pub spell: Seq<char>,
    pub suggestions: Seq<CandidateView>,
}

impl View for ComposingText {
    type V = ComposingTextView;

    open spec fn view(&self) -> ComposingTextView {
        ComposingTextView { spell: self.spell@, suggestions: candidates_view(self.suggestions@) }
    }
}

/// What came of an effect.
#[derive(Debug, PartialEq, Eq)]
pub enum Reply {
    /// The call was made and had nothing to return.
    Done,
    /// The backend answered with its composed text.
    Composed(ComposingText),
    /// The call failed.
    Failed,
}

pub ghost enum ReplyView {
    Done,
    Composed(ComposingTextView),
    Failed,
}

impl View for Reply {
    type V = ReplyView;

    open spec fn view(&self) -> ReplyView {
        match self {
            Reply::Done => ReplyView::Done,
            Reply::Composed(text) => ReplyView::Composed(text@),
            Reply::Failed => ReplyView::Failed,
        }
    }
}

/// Why a pass did not go through.
#[derive(Clone, Copy, Debug, PartialEq, Eq, Structural)]
pub enum Failure {
    /// A backend call failed or answered in the wrong shape. The keystroke
    /// is dropped and the record stays as it was.
    Backend,
    /// A call on the host's text surface failed. The session is over.
    HostBinding,
}

/// How a pass ended.
#[derive(Debug)]
pub struct Settlement {
    pub factory: TextServiceFactory,
    /// Whether the key was consumed; if not, the host treats it as its own.
    pub handled: bool,
    pub failure: Option<Failure>,
}

pub ghost struct SettlementView {
    pub factory: FactoryView,
    pub handled: bool,
    pub failure: Option<Failure>,
}

impl View for Settlement {
    type V = SettlementView;

    open spec fn view(&self) -> SettlementView {
        SettlementView { factory: self.factory@, handled: self.handled, failure: self.failure }
    }
}

/// A pass in flight. It owns the service for as long as it runs, so no
/// second pass can start on the same record.
#[derive(Debug)]
pub struct Pass {
    origin: TextServiceFactory,
    composed_text: String,
    suggestions: Vec<Candidate>,
    mode: InputMode,
    transition: CompositionState,
    actions: Vec<ClientAction>,
    at: usize,
    stage: u8,
}

pub ghost struct PassView {
    /// The service as the pass found it.
    pub origin: FactoryView,
    /// The working copy of the text.
    pub composed_text: Seq<char>,
    /// The working copy of the suggestions.
    pub suggestions: Seq<CandidateView>,
    /// The working copy of the mode.
    pub mode: InputMode,
    /// The state that a commit will write.
    pub transition: CompositionState,
    pub actions: Seq<ClientActionView>,
    /// The action in progress.
    pub at: nat,
    /// How many effects of that action are done.
    pub stage: nat,
}

pub ghost enum ProgressView {
    Pending(PassView),
    Settled(SettlementView),
}

/// The effect of an action at a stage, or `None` when the action has no
/// more effects. Moving the cursor has none at all.
pub open spec fn demand(
    action: ClientActionView,
    stage: nat,
    composed_text: Seq<char>,
    mode: InputMode,
    candidate_surface: bool,
) -> Option<EffectView> {
    match action {
        ClientActionView::StartComposition => if stage == 0 {
            Some(EffectView::BeginSession)
        } else if stage == 1 && candidate_surface {
            Some(EffectView::ShowCandidateSurface)
        } else {
            None
        },
        ClientActionView::EndComposition => if stage == 0 {
            Some(EffectView::CommitText(composed_text))
        } else if stage == 1 {
            Some(EffectView::EndSession)
        } else if stage == 2 {
            Some(EffectView::Clear)
        } else if stage == 3 && candidate_surface {
            Some(EffectView::HideCandidateSurface)
        } else {
            None
        },
        ClientActionView::AppendText(unit) => if stage == 0 {
            Some(
                EffectView::Append(
                    if mode == InputMode::Kana {
                        fullwidth_text(unit)
                    } else {
                        unit
                    },
                ),
            )
        } else if stage == 1 {
            Some(EffectView::UpdateText(composed_text))
        } else {
            None
        },
        ClientActionView::RemoveText => if stage == 0 {
            Some(EffectView::Remove)
        } else if stage == 1 {
            Some(EffectView::UpdateText(composed_text))
        } else {
            None
        },
        ClientActionView::MoveCursor(_) => None,
        ClientActionView::SetIMEMode(_) => if stage == 0 {
            Some(EffectView::Clear)
        } else {
            None
        },
    }
}

/// How many effects an action has.
pub open spec fn stages(action: ClientActionView, candidate_surface: bool) -> nat {
    match action {
        ClientActionView::StartComposition => if candidate_surface { 2 } else { 1 },
        ClientActionView::EndComposition => if candidate_surface { 4 } else { 3 },
        ClientActionView::AppendText(_) => 2,
        ClientActionView::RemoveText => 2,
        ClientActionView::MoveCursor(_) => 0,
        ClientActionView::SetIMEMode(_) => 1,
    }
}

/// Whether the reply lets the pass go on: the call did not fail, and a call
/// that is answered with text got one.
pub open spec fn accepted(effect: EffectView, reply: ReplyView) -> bool {
    reply !is Failed && (effect.expects_text() ==> reply is Composed)
}

/// The failure that a refused reply to the effect stands for.
pub open spec fn failure_of(effect: EffectView) -> Failure {
    if effect.is_backend() {
        Failure::Backend
    } else {
        Failure::HostBinding
    }
}

impl PassView {
    /// The effect that the host has to carry out next.
    pub open spec fn pending(self) -> Option<EffectView> {
        if self.at < self.actions.len() {
            demand(
                self.actions[self.at as int],
                self.stage,
                self.composed_text,
                self.mode,
                self.origin.candidate_surface,
            )
        } else {
            None
        }
    }

    /// A pass in flight always has an effect pending.
    pub open spec fn wf(self) -> bool {
        self.origin.wf() && self.pending() is Some
    }

    /// The service after a commit of the working copy. A commit to the idle
    /// state writes the idle record, whatever the working copy holds.
    pub open spec fn committed(self) -> FactoryView {
        FactoryView {
            composition: if self.transition == CompositionState::Idle {
                CompositionView::idle()
            } else {
                CompositionView {
                    state: self.transition,
                    composed_text: self.composed_text,
                    suggestions: self.suggestions,
                }
            },
            mode: self.mode,
            candidate_surface: self.origin.candidate_surface,
        }
    }

    /// The pass after an accepted reply to its pending effect.
    ///
    /// The backend's answer replaces text and suggestions; an empty answer
    /// to a removal ends the session. An acknowledged clear empties the
    /// working copy, and sets the mode where the action sets one.
    pub open spec fn absorbed(self, reply: ReplyView) -> PassView {
        let next = PassView { stage: self.stage + 1, ..self };
        match self.pending() {
            Some(EffectView::Append(_)) => match reply {
                ReplyView::Composed(text) => PassView {
                    composed_text: text.spell,
                    suggestions: text.suggestions,
                    ..next
                },
                _ => next,
            },
            Some(EffectView::Remove) => match reply {
                ReplyView::Composed(text) => PassView {
                    composed_text: text.spell,
                    suggestions: text.suggestions,
                    transition: if text.spell.len() == 0 {
                        CompositionState::Idle
                    } else {
                        self.transition
                    },
                    ..next
                },
                _ => next,
            },
            Some(EffectView::Clear) => PassView {
                composed_text: Seq::empty(),
                suggestions: Seq::empty(),
                mode: match self.actions[self.at as int] {
                    ClientActionView::SetIMEMode(mode) => mode,
                    _ => self.mode,
                },
                ..next
            },
            _ => next,
        }
    }

    /// The settlement of a pass whose pending effect was refused.
    ///
    /// After a backend failure the service is what it was before the pass.
    /// After a failure of the host binding its record is cleared as well.
    pub open spec fn failed(self) -> SettlementView {
        match self.pending() {
            Some(effect) => SettlementView {
                factory: if effect.is_backend() {
                    self.origin
                } else {
                    self.origin.cleared()
                },
                handled: false,
                failure: Some(failure_of(effect)),
            },
            None => SettlementView { factory: self.origin, handled: false, failure: None },
        }
    }

    /// What becomes of the pass when the host reports on its pending effect.
    pub open spec fn resumed(self, reply: ReplyView) -> ProgressView {
        match self.pending() {
            Some(effect) => if accepted(effect, reply) {
                seek(self.absorbed(reply))
            } else {
                ProgressView::Settled(self.failed())
            },
            None => ProgressView::Settled(self.failed()),
        }
    }
}

/// Moves on to the next effect, past actions that have none left, and
/// commits when the list is through.
pub open spec fn seek(pass: PassView) -> ProgressView
    decreases pass.actions.len() - pass.at,
{
    if pass.at >= pass.actions.len() {
        ProgressView::Settled(
            SettlementView { factory: pass.committed(), handled: true, failure: None },
        )
    } else if pass.pending() is Some {
        ProgressView::Pending(pass)
    } else {
        seek(PassView { at: pass.at + 1, stage: 0, ..pass })
    }
}

/// Seeking changes nothing but the position: it stops at an effect, or it
/// commits what the pass holds.
pub proof fn lemma_seek(pass: PassView)
    ensures
        match seek(pass) {
            ProgressView::Pending(found) => {
                &&& found == (PassView { at: found.at, stage: found.stage, ..pass })
                &&& found.at >= pass.at
                &&& found.pending() is Some
            },
            ProgressView::Settled(settlement) => settlement == (SettlementView {
                factory: pass.committed(),
                handled: true,
                failure: None,
            }),
        },
    decreases pass.actions.len() - pass.at,
{
    if pass.at < pass.actions.len() && pass.pending() is None {
        lemma_seek(PassView { at: pass.at + 1, stage: 0, ..pass });
    }
}

/// The start of a pass: a working copy of the record and the mode, and the
/// first effect sought.
pub open spec fn begun(
    factory: FactoryView,
    actions: Seq<ClientActionView>,
    transition: CompositionState,
) -> ProgressView {
    seek(
        PassView {
            origin: factory,
            composed_text: factory.composition.composed_text,
            suggestions: factory.composition.suggestions,
            mode: factory.mode,
            transition,
            actions,
            at: 0,
            stage: 0,
        },
    )
}

/// Where a pass stands after the host has reported on its effects with the
/// given replies, one after the other. Replies past the settlement of the
/// pass reach nobody.
pub open spec fn run(progress: ProgressView, replies: Seq<ReplyView>) -> ProgressView
    decreases replies.len(),
{
    if replies.len() == 0 {
        progress
    } else {
        match progress {
            ProgressView::Pending(pass) => run(pass.resumed(replies[0]), replies.drop_first()),
            ProgressView::Settled(_) => progress,
        }
    }
}

/// The effects that the host is asked for on that way, in order.
pub open spec fn asked(progress: ProgressView, replies: Seq<ReplyView>) -> Seq<EffectView>
    decreases replies.len(),
{
    match progress {
        ProgressView::Pending(pass) => match pass.pending() {
            Some(effect) => if replies.len() == 0 {
                seq![effect]
            } else {
                seq![effect] + asked(pass.resumed(replies[0]), replies.drop_first())
            },
            None => Seq::empty(),
        },
        ProgressView::Settled(_) => Seq::empty(),
    }
}

impl View for Pass {
    type V = PassView;

    closed spec fn view(&self) -> PassView {
        PassView {
            origin: self.origin@,
            composed_text: self.composed_text@,
            suggestions: candidates_view(self.suggestions@),
            mode: self.mode,
            transition: self.transition,
            actions: actions_view(self.actions@),
            at: self.at as nat,
            stage: self.stage as nat,
        }
    }
}

/// Where a pass stands: waiting for the host, or over.
#[derive(Debug)]
pub enum Progress {
    Pending(Pass),
    Settled(Settlement),
}

impl View for Progress {
    type V = ProgressView;

    open spec fn view(&self) -> ProgressView {
        match self {
            Progress::Pending(pass) => ProgressView::Pending(pass@),
            Progress::Settled(settlement) => ProgressView::Settled(settlement@),
        }
    }
}

fn has_stage(action: &ClientAction, stage: u8, candidate_surface: bool) -> (r: bool)
    ensures
        r == (stage < stages(action@, candidate_surface)),
{
    match action {
        ClientAction::StartComposition => stage < 1 || (stage < 2 && candidate_surface),
        ClientAction::EndComposition => stage < 3 || (stage < 4 && candidate_surface),
        ClientAction::AppendText(_) => stage < 2,
        ClientAction::RemoveText => stage < 2,
        ClientAction::MoveCursor(_) => false,
        ClientAction::SetIMEMode(_) => stage < 1,
    }
}

/// An action has an effect at a stage exactly below its number of stages.
pub proof fn lemma_demand_stages(
    action: ClientActionView,
    stage: nat,
    composed_text: Seq<char>,
    mode: InputMode,
    candidate_surface: bool,
)
    ensures
        demand(action, stage, composed_text, mode, candidate_surface) is Some <==> stage < stages(
            action,
            candidate_surface,
        ),
        stages(action, candidate_surface) <= 4,
{
}

/// Finds the next effect from a position in the list, or commits.
fn seek_next(
    origin: TextServiceFactory,
    composed_text: String,
    suggestions: Vec<Candidate>,
    mode: InputMode,
    transition: CompositionState,
    actions: Vec<ClientAction>,
    at: usize,
    stage: u8,
) -> (r: Progress)
    ensures
        r@ == seek(
            PassView {
                origin: origin@,
                composed_text: composed_text@,
                suggestions: candidates_view(suggestions@),
                mode,
                transition,
                actions: actions_view(actions@),
                at: at as nat,
                stage: stage as nat,
            },
        ),
{
    let ghost start = PassView {
        origin: origin@,
        composed_text: composed_text@,
        suggestions: candidates_view(suggestions@),
        mode,
        transition,
        actions: actions_view(actions@),
        at: at as nat,
        stage: stage as nat,
    };
    let candidate_surface = origin.has_candidate_surface();
    let mut index = at;
    let mut done = stage;
    while index < actions.len()
        invariant
            start == (PassView {
                origin: origin@,
                composed_text: composed_text@,
                suggestions: candidates_view(suggestions@),
                mode,
                transition,
                actions: actions_view(actions@),
                at: at as nat,
                stage: stage as nat,
            }),
            candidate_surface == start.origin.candidate_surface,
            seek(PassView { at: index as nat, stage: done as nat, ..start }) == seek(start),
        decreases actions.len() - index,
    {
        let ghost here = PassView { at: index as nat, stage: done as nat, ..start };
        proof {
            lemma_demand_stages(
                here.actions[index as int],
                done as nat,
                here.composed_text,
                here.mode,
                candidate_surface,
            );
        }
        if has_stage(&actions[index], done, candidate_surface) {
            let record = origin.composition();
            let pass = Pass {
                origin,
                composed_text,
                suggestions,
                mode,
                transition,
                actions,
                at: index,
                stage: done,
            };
            assert(pass@ == here);
            assert(seek(here) == ProgressView::Pending(here));
            return Progress::Pending(pass);
        }
        index = index + 1;
        done = 0;
    }
    let composition = match transition {
        CompositionState::Idle => Composition::default(),
        _ => Composition { state: transition, composed_text, suggestions },
    };
    Progress::Settled(
        Settlement {
            factory: TextServiceFactory::assemble(composition, mode, candidate_surface),
            handled: true,
            failure: None,
        },
    )
}

/// Starts a pass over the actions on a working copy of the service's record.
pub(crate) fn begin(
    factory: TextServiceFactory,
    actions: Vec<ClientAction>,
    transition: CompositionState,
) -> (r: Progress)
    ensures
        r@ == begun(factory@, actions_view(actions@), transition),
{
    let record = factory.composition();
    let composed_text = record.composed_text.clone();
    let suggestions = record.suggestions.clone();
    assert(suggestions@ =~= record.suggestions@);
    let mode = factory.mode();
    seek_next(factory, composed_text, suggestions, mode, transition, actions, 0, 0)
}

impl Pass {
    #[verifier::type_invariant]
    closed spec fn inv(self) -> bool {
        self@.wf()
    }

    /// The effect that the host has to carry out now.
    pub fn effect(&self) -> (r: Effect)
        ensures
            self@.wf(),
            self@.pending() == Some(r@),
    {
        proof {
            use_type_invariant(self);
        }
        let candidate_surface = self.origin.has_candidate_surface();
        match &self.actions[self.at] {
            ClientAction::StartComposition => {
                if self.stage == 0 {
                    Effect::BeginSession
                } else {
                    Effect::ShowCandidateSurface
                }
            },
            ClientAction::EndComposition => {
                if self.stage == 0 {
                    Effect::CommitText(self.composed_text.clone())
                } else if self.stage == 1 {
                    Effect::EndSession
                } else if self.stage == 2 {
                    Effect::Clear
                } else {
                    Effect::HideCandidateSurface
                }
            },
            ClientAction::AppendText(unit) => {
                if self.stage == 0 {
                    match self.mode {
                        InputMode::Kana => Effect::Append(to_fullwidth(unit.as_str())),
                        InputMode::Latin => Effect::Append(unit.clone()),
                    }
                } else {
                    Effect::UpdateText(self.composed_text.clone())
                }
            },
            ClientAction::RemoveText => {
                if self.stage == 0 {
                    Effect::Remove
                } else {
                    Effect::UpdateText(self.composed_text.clone())
                }
            },
            ClientAction::MoveCursor(_) => vstd::pervasive::unreached(),
            ClientAction::SetIMEMode(_) => Effect::Clear,
        }
    }

    /// Takes the host's report on the pending effect and moves on: to the
    /// next effect, or to the settlement of the pass.
    pub fn resume(self, reply: Reply) -> (r: Progress)
        ensures
            r@ == self@.resumed(reply@),
    {
        proof {
            use_type_invariant(&self);
        }
        let effect = self.effect();
        let Pass { origin, composed_text, suggestions, mode, transition, actions, at, stage } =
            self;
        let ghost before = PassView {
            origin: origin@,
            composed_text: composed_text@,
            suggestions: candidates_view(suggestions@),
            mode,
            transition,
            actions: actions_view(actions@),
            at: at as nat,
            stage: stage as nat,
        };
        proof {
            lemma_demand_stages(
                before.actions[at as int],
                stage as nat,
                before.composed_text,
                mode,
                before.origin.candidate_surface,
            );
        }
        match effect {
            Effect::Append(_) => match reply {
                Reply::Composed(text) => seek_next(
                    origin,
                    text.spell,
                    text.suggestions,
                    mode,
                    transition,
                    actions,
                    at,
                    stage + 1,
                ),
                _ => Progress::Settled(
                    Settlement { factory: origin, handled: false, failure: Some(Failure::Backend) },
                ),
            },
            Effect::Remove => match reply {
                Reply::Composed(text) => {
                    let transition = if text.spell.as_str().is_empty() {
                        CompositionState::Idle
                    } else {
                        transition
                    };
                    seek_next(
                        origin,
                        text.spell,
                        text.suggestions,
                        mode,
                        transition,
                        actions,
                        at,
                        stage + 1,
                    )
                },
                _ => Progress::Settled(
                    Settlement { factory: origin, handled: false, failure: Some(Failure::Backend) },
                ),
            },
            Effect::Clear => match reply {
                Reply::Failed => Progress::Settled(
                    Settlement { factory: origin, handled: false, failure: Some(Failure::Backend) },
                ),
                _ => {
                    let mode = match &actions[at] {
                        ClientAction::SetIMEMode(mode) => *mode,
                        _ => mode,
                    };
                    let suggestions: Vec<Candidate> = Vec::new();
                    assert(candidates_view(suggestions@) =~= Seq::empty());
                    seek_next(
                        origin,
                        String::new(),
                        suggestions,
                        mode,
                        transition,
                        actions,
                        at,
                        stage + 1,
                    )
                },
            },
            _ => match reply {
                Reply::Failed => {
                    let mode = origin.mode();
                    let candidate_surface = origin.has_candidate_surface();
                    Progress::Settled(
                        Settlement {
                            factory: TextServiceFactory::new(mode, candidate_surface),
                            handled: false,
                            failure: Some(Failure::HostBinding),
                        },
                    )
                },
                _ => seek_next(
                    origin,
                    composed_text,
                    suggestions,
                    mode,
                    transition,
                    actions,
                    at,
                    stage + 1,
                ),
            },
        }
    }
}

} // verus!
