//! Tessellation gates.
//!
//! A tessellation gate is a _pipeline node_ that allows to share [`Tess`] for deeper nodes.
//!
//! [`Tess`]: crate::tess::Tess
use vstd::prelude::*;
use crate::backend::tess_gate::TessGate as TessGateBackend;
use crate::tess::{TessIndex, TessVertexData, TessView};

verus! {

/// Tessellation gate.
pub struct TessGate<'a, B> where B: ?Sized {
    pub(crate) backend: &'a mut B,
}

impl<'a, B> TessGate<'a, B> where B: ?Sized {
    /// The backend the renders are issued to.
    pub closed spec fn spec_backend(&self) -> &'a mut B {
        self.backend
    }

    /// The backend is the one the struct holds.
    pub(crate) proof fn lemma_backend(&self)
        ensures
            self.spec_backend() == self.backend,
    {
    }

    /// Enter the [`TessGate`] by sharing a [`TessView`]: the window of the view is rendered.
    pub fn render<'b, E, T, V, I, W, S>(&'b mut self, tess_view: T) -> (r: Result<(), E>) where
        B: TessGateBackend<V, I, W, S>,
        T: Into<TessView<'b, B, V, I, W, S>>,
        V: TessVertexData<S> + 'b,
        I: TessIndex + 'b,
        W: TessVertexData<S> + 'b,
        S: ?Sized + 'b,
        ensures
            r is Ok,
            exists|view: TessView<'b, B, V, I, W, S>|
                #[trigger] call_ensures(T::into, (tess_view,), view) && (*final(self).spec_backend()).spec_renders()
                    == (*old(self).spec_backend()).spec_renders().push(
                    (
                        view.spec_tess().spec_repr(),
                        view.spec_start_index(),
                        view.spec_vert_nb(),
                        view.spec_inst_nb(),
                    ),
                ),
    {
        let view: TessView<'b, B, V, I, W, S> = tess_view.into();
        self.backend.render(&view.tess.repr, view.start_index, view.vert_nb, view.inst_nb);
        proof {
            view.lemma_fields();
        }
        Ok(())
    }
}

} // verus!
