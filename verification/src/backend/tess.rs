//! Tessellation backend interface.
//!
//! This interface defines the low-level API tessellations must implement to be usable.
use vstd::prelude::*;
use std::ops::{Deref, DerefMut};
use crate::tess::{Mode, TessError, TessIndex, TessMapError, TessVertexData};

verus! {

/// Tessellation backend: creation and rendering of tessellations.
pub trait Tess<V, I, W, S> where V: TessVertexData<S>, I: TessIndex, W: TessVertexData<S>, S: ?Sized {
    /// The inner representation of a tessellation for this backend.
    type TessRepr;

    /// The number of vertices a tessellation renders by default.
    spec fn spec_vertices_nb(tess: &Self::TessRepr) -> usize;

    /// The number of instances a tessellation renders by default.
    spec fn spec_instances_nb(tess: &Self::TessRepr) -> usize;

    /// What a tessellation was built out of: its vertex data, instance data, index data, primitive
    /// restart index and primitive mode.
    spec fn spec_built(tess: &Self::TessRepr) -> (
        Option<V::Data>,
        Option<W::Data>,
        Seq<I>,
        Option<I>,
        Mode,
    );

    /// The answers the backend gave to the tessellations asked of it, in order.
    spec fn spec_build_answers(&self) -> Seq<Result<Self::TessRepr, TessError>>;

    /// Build a tessellation out of vertex data and its number of vertices, instance data and its
    /// number of instances, index data, an optional primitive restart index and a primitive mode.
    fn build(
        &mut self,
        vert: (Option<V::Data>, usize),
        inst: (Option<W::Data>, usize),
        index_data: Vec<I>,
        restart_index: Option<I>,
        mode: Mode,
    ) -> (r: Result<Self::TessRepr, TessError>)
        ensures
            final(self).spec_build_answers() == old(self).spec_build_answers().push(r),
            r matches Ok(t) ==> Self::spec_vertices_nb(&t) == vert.1 && Self::spec_instances_nb(&t)
                == inst.1,
            r matches Ok(t) ==> Self::spec_built(&t) == (
                vert.0,
                inst.0,
                index_data@,
                restart_index,
                mode,
            ),
    ;

    /// The number of vertices of a tessellation.
    fn tess_vertices_nb(tess: &Self::TessRepr) -> (r: usize)
        ensures
            r == Self::spec_vertices_nb(tess),
    ;

    /// The number of instances of a tessellation.
    fn tess_instances_nb(tess: &Self::TessRepr) -> (r: usize)
        ensures
            r == Self::spec_instances_nb(tess),
    ;

    /// Render `vert_nb` vertices of a tessellation starting at `start_index`, `inst_nb` times.
    fn render(tess: &Self::TessRepr, start_index: usize, vert_nb: usize, inst_nb: usize) -> Result<
        (),
        TessError,
    >;
}

/// Vertex slicing backend: mapping the vertices of a tessellation onto host memory.
pub trait VertexSlice<V, I, W, S, T>: Tess<V, I, W, S> where
    V: TessVertexData<S>,
    I: TessIndex,
    W: TessVertexData<S>,
    S: ?Sized,
 {
    /// The inner representation of a read-only mapping.
    type VertexSliceRepr: Deref<Target = [T]>;

    /// The inner representation of a read-write mapping.
    type VertexSliceMutRepr: DerefMut<Target = [T]>;

    /// Map the vertices of a tessellation for reading.
    fn vertices(tess: &mut Self::TessRepr) -> Result<Self::VertexSliceRepr, TessMapError>;

    /// Map the vertices of a tessellation for reading and writing.
    fn vertices_mut(tess: &mut Self::TessRepr) -> Result<Self::VertexSliceMutRepr, TessMapError>;
}

/// Index slicing backend: mapping the indices of a tessellation onto host memory.
pub trait IndexSlice<V, I, W, S>: Tess<V, I, W, S> where
    V: TessVertexData<S>,
    I: TessIndex,
    W: TessVertexData<S>,
    S: ?Sized,
 {
    /// The inner representation of a read-only mapping.
    type IndexSliceRepr: Deref<Target = [I]>;

    /// The inner representation of a read-write mapping.
    type IndexSliceMutRepr: DerefMut<Target = [I]>;

    /// Map the indices of a tessellation for reading.
    fn indices(tess: &mut Self::TessRepr) -> Result<Self::IndexSliceRepr, TessMapError>;

    /// Map the indices of a tessellation for reading and writing.
    fn indices_mut(tess: &mut Self::TessRepr) -> Result<Self::IndexSliceMutRepr, TessMapError>;
}

/// Instance slicing backend: mapping the instances of a tessellation onto host memory.
pub trait InstanceSlice<V, I, W, S, T>: Tess<V, I, W, S> where
    V: TessVertexData<S>,
    I: TessIndex,
    W: TessVertexData<S>,
    S: ?Sized,
 {
    /// The inner representation of a read-only mapping.
    type InstanceSliceRepr: Deref<Target = [T]>;

    /// The inner representation of a read-write mapping.
    type InstanceSliceMutRepr: DerefMut<Target = [T]>;

    /// Map the instances of a tessellation for reading.
    fn instances(tess: &mut Self::TessRepr) -> Result<Self::InstanceSliceRepr, TessMapError>;

    /// Map the instances of a tessellation for reading and writing.
    fn instances_mut(tess: &mut Self::TessRepr) -> Result<Self::InstanceSliceMutRepr, TessMapError>;
}

} // verus!
