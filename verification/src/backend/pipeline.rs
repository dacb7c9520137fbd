//! Pipeline backend interface.
//!
//! This interface defines the low-level API pipelines must implement to be usable.
use vstd::prelude::*;
use crate::backend::buffer::Buffer;
use crate::backend::shading_gate::ShadingGate as ShadingGateBackend;
use crate::backend::texture::{Texture, TextureBase};
use crate::pipeline::PipelineError;
use crate::pixel::Pixel;
use crate::texture::Dimensionable;

verus! {

/// Pipeline backend: creation of the pipelines that resources are bound in.
pub trait PipelineBase: ShadingGateBackend + TextureBase {
    /// The inner representation of a pipeline.
    type PipelineRepr;

    /// The pipelines created so far, in order.
    spec fn spec_pipelines(&self) -> Seq<Self::PipelineRepr>;

    /// Create a new pipeline; no pipeline error is defined, so this never fails.
    fn new_pipeline(&mut self) -> (r: Result<Self::PipelineRepr, PipelineError>)
        ensures
            r is Ok,
            r matches Ok(p) ==> final(self).spec_pipelines() == old(self).spec_pipelines().push(p),
    ;
}

/// Buffer binding backend: binding buffers of items of type `T` in a pipeline.
pub trait PipelineBuffer<T>: PipelineBase + Buffer<T> where T: Copy {
    /// The inner representation of a bound buffer.
    type BoundBufferRepr;

    /// Bind a buffer in a pipeline; no pipeline error is defined, so this never fails.
    fn bind_buffer(pipeline: &Self::PipelineRepr, buffer: &Self::BufferRepr) -> (r: Result<
        Self::BoundBufferRepr,
        PipelineError,
    >)
        ensures
            r is Ok,
    ;

    /// The binding point of a bound buffer.
    spec fn spec_buffer_binding(bound: &Self::BoundBufferRepr) -> u32;

    /// The binding point of a bound buffer.
    fn buffer_binding(bound: &Self::BoundBufferRepr) -> (r: u32)
        ensures
            r == Self::spec_buffer_binding(bound),
    ;
}

/// Texture binding backend: binding textures of dimension `D` and pixels `P` in a pipeline.
pub trait PipelineTexture<D, P>: PipelineBase + Texture<D, P> where D: Dimensionable, P: Pixel {
    /// The inner representation of a bound texture.
    type BoundTextureRepr;

    /// Bind a texture in a pipeline; no pipeline error is defined, so this never fails.
    fn bind_texture(pipeline: &Self::PipelineRepr, texture: &Self::TextureRepr) -> (r: Result<
        Self::BoundTextureRepr,
        PipelineError,
    >)
        ensures
            r is Ok,
    ;

    /// The binding point of a bound texture.
    spec fn spec_texture_binding(bound: &Self::BoundTextureRepr) -> u32;

    /// The binding point of a bound texture.
    fn texture_binding(bound: &Self::BoundTextureRepr) -> (r: u32)
        ensures
            r == Self::spec_texture_binding(bound),
    ;
}

} // verus!
