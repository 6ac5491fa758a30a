//! The text service of one host attachment: its composition record, its
//! input mode, and whether a candidate surface is attached.

use vstd::prelude::*;
use crate::engine::composition::{Composition, CompositionState, CompositionView};
use crate::engine::input_mode::InputMode;

verus! {

/// Everything the controller keeps between keystrokes. It is made once per
/// host attachment and handed into each pass, which gives it back when the
/// pass has settled.
#[derive(Debug)]
pub struct TextServiceFactory {
    pub(crate) composition: Composition,
    pub(crate) mode: InputMode,
    pub(crate) candidate_surface: bool,
}

pub ghost struct FactoryView {
    pub composition: CompositionView,
    pub mode: InputMode,
    pub candidate_surface: bool,
}

impl FactoryView {
    pub open spec fn wf(self) -> bool {
        self.composition.wf()
    }

    /// The same service with its record cleared.
    pub open spec fn cleared(self) -> FactoryView {
        FactoryView { composition: CompositionView::idle(), ..self }
    }
}

impl View for TextServiceFactory {
    type V = FactoryView;

    closed spec fn view(&self) -> FactoryView {
        FactoryView {
            composition: self.composition@,
            mode: self.mode,
            candidate_surface: self.candidate_surface,
        }
    }
}

impl TextServiceFactory {
    #[verifier::type_invariant]
    pub closed spec fn inv(self) -> bool {
        self.composition@.wf()
    }

    /// A service without a session.
    pub fn new(mode: InputMode, candidate_surface: bool) -> (r: Self)
        ensures
            r@ == (FactoryView { composition: CompositionView::idle(), mode, candidate_surface }),
    {
        TextServiceFactory { composition: Composition::default(), mode, candidate_surface }
    }

    /// Puts a service together from a well-formed record.
    pub(crate) fn assemble(composition: Composition, mode: InputMode, candidate_surface: bool) -> (r:
        Self)
        requires
            composition@.wf(),
        ensures
            r@ == (FactoryView { composition: composition@, mode, candidate_surface }),
    {
        TextServiceFactory { composition, mode, candidate_surface }
    }

    pub fn composition(&self) -> (r: &Composition)
        ensures
            r@ == self@.composition,
            r@.wf(),
    {
        proof {
            use_type_invariant(self);
        }
        &self.composition
    }

    pub fn state(&self) -> (r: CompositionState)
        ensures
            r == self@.composition.state,
    {
        self.composition.state
    }

    pub fn mode(&self) -> (r: InputMode)
        ensures
            r == self@.mode,
    {
        self.mode
    }

    pub fn has_candidate_surface(&self) -> (r: bool)
        ensures
            r == self@.candidate_surface,
    {
        self.candidate_surface
    }
}

} // verus!
