//! Tessellation gate backend interface.
//!
//! This interface defines the low-level API tessellation gates must implement to be usable.
use vstd::prelude::*;
use crate::backend::tess::Tess;
use crate::tess::{TessIndex, TessVertexData};

verus! {

/// Tessellation gate backend: rendering a window of a tessellation.
pub trait TessGate<V, I, W, S>: Tess<V, I, W, S> where
    V: TessVertexData<S>,
    I: TessIndex,
    W: TessVertexData<S>,
    S: ?Sized,
 {
    /// The renders issued so far, in order: the tessellation, the first vertex, the number of
    /// vertices and the number of instances of each.
    spec fn spec_renders(&self) -> Seq<(Self::TessRepr, usize, usize, usize)>;

    /// Render `vert_nb` vertices of a tessellation, starting at `start_index`, `inst_nb` times.
    fn render(&mut self, tess: &Self::TessRepr, start_index: usize, vert_nb: usize, inst_nb: usize)
        ensures
            final(self).spec_renders() == old(self).spec_renders().push(
                (*tess, start_index, vert_nb, inst_nb),
            ),
    ;
}

} // verus!
