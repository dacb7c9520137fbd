//! Render gates.
//!
//! A render gate is a _pipeline node_ that allows to share [`RenderState`] for deeper nodes,
//! which are used to render [`Tess`].
//!
//! [`Tess`]: crate::tess::Tess
use vstd::prelude::*;
use crate::backend::render_gate::RenderGate as RenderGateBackend;
use crate::render_state::RenderState;
use crate::tess_gate::TessGate;

verus! {

/// A render gate.
///
/// # Parametricity
///
/// - `B` is the backend type.
pub struct RenderGate<'a, B> where B: ?Sized {
    pub(crate) backend: &'a mut B,
}

impl<'a, B> RenderGate<'a, B> where B: ?Sized {
    /// The backend the renders are issued to.
    pub closed spec fn spec_backend(&self) -> &'a mut B {
        self.backend
    }

    /// The backend is the one the struct holds.
    pub(crate) proof fn lemma_backend(&self)
        ensures
            self.spec_backend() == self.backend,
    {
    }
}

impl<'a, B> RenderGate<'a, B> where B: ?Sized + RenderGateBackend {
    /// Enter a [`RenderGate`] and go deeper in the pipeline: the render state is entered, then
    /// `f` is called once, with a [`TessGate`] over the backend in that state, and what it returns
    /// is returned.
    pub fn render<'b, E, F>(&'b mut self, rdr_st: &RenderState, f: F) -> (r: Result<(), E>) where
        F: FnOnce(TessGate<'b, B>) -> Result<(), E>,
        requires
            forall|gate: TessGate<'b, B>| call_requires(f, (gate,)),
        ensures
            exists|gate: TessGate<'b, B>|
                #[trigger] call_ensures(f, (gate,), r) && (*gate.spec_backend()).spec_render_state()
                    == Some(*rdr_st),
    {
        self.backend.enter_render_state(rdr_st);
        let ghost state = (*self.backend).spec_render_state();
        let tess_gate = TessGate { backend: &mut *self.backend };
        let ghost gate = tess_gate;
        assert((*gate.backend).spec_render_state() == state);
        let r = f(tess_gate);
        proof {
            gate.lemma_backend();
            assert(call_ensures(f, (gate,), r));
        }
        r
    }
}

} // verus!
