//! Graphics pipelines.
//!
//! Graphics pipelines are the means used to describe — and hence perform — renders. They
//! provide a way to describe how resources should be shared and used to produce a single
//! pixel frame.
//!
//! This module holds the values that flow out of a pipeline: its errors, its viewport, the
//! outcome of a render and the opaque bindings of bound buffers and textures, which are passed to
//! shaders through uniforms.
use std::marker::PhantomData;
use std::ops::{Deref, DerefMut};
use vstd::prelude::*;
use vstd::std_specs::convert::FromSpecImpl;
use crate::backend::pipeline::{PipelineBase, PipelineBuffer, PipelineTexture};
use crate::buffer::Buffer;
use crate::context::GraphicsContext;
use crate::pixel::Pixel;
use crate::shading_gate::ShadingGate;
use crate::texture::{Dimensionable, Texture};

verus! {

/// Possible errors that might occur in a graphics pipeline.
///
/// No error is currently defined: no value of that type can be made outside the crate, and the
/// pipeline backends never return one.
#[non_exhaustive]
#[derive(Debug)]
pub struct PipelineError {
    _none: (),
}

impl PipelineError {
    /// The human-readable message of the error, which is empty.
    pub fn to_string(&self) -> (r: String)
        ensures
            r@ == Seq::<char>::empty(),
    {
        String::new()
    }
}

/// The viewport being part of the pipeline state.
#[derive(Clone, Copy, Debug, PartialEq, Eq, Structural, Hash)]
pub enum Viewport {
    /// The whole viewport is used. The position and dimension of the viewport rectangle are
    /// extracted from the framebuffer.
    Whole,
    /// The viewport is specific and the rectangle area is user-defined.
    Specific {
        /// The lower position on the X axis to start the viewport rectangle at.
        x: u32,
        /// The lower position on the Y axis to start the viewport rectangle at.
        y: u32,
        /// The width of the viewport.
        width: u32,
        /// The height of the viewport.
        height: u32,
    },
}

/// Output of a pipeline.
///
/// This type is used as a proxy over `Result<(), E>`, which it defers to. It is needed so that
/// you can seamlessly call the [`Render::assume_pipeline_error`] method.
pub struct Render<E>(Result<(), E>);

impl<E> Render<E> {
    /// The result that the render stands for.
    pub closed spec fn spec_result(self) -> Result<(), E> {
        self.0
    }

    /// The output of a pipeline whose rendering function returned `result`.
    pub fn new(result: Result<(), E>) -> (r: Self)
        ensures
            r.spec_result() == result,
    {
        Render(result)
    }

    /// Turn a [`Render`] into a [`Result`].
    pub fn into_result(self) -> (r: Result<(), E>)
        ensures
            r == self.spec_result(),
    {
        self.0
    }
}

impl Render<PipelineError> {
    /// Assume the error type is [`PipelineError`].
    ///
    /// Most of the time, users will not provide their own error types for pipelines. Rust doesn’t
    /// have default type parameters for methods, so this function is needed to inform the type
    /// system to default the error type to [`PipelineError`].
    pub fn assume_pipeline_error(self) -> (r: Self)
        ensures
            r == self,
    {
        self
    }
}

impl<E> Deref for Render<E> {
    type Target = Result<(), E>;

    fn deref(&self) -> (r: &Result<(), E>)
        ensures
            *r == self.spec_result(),
    {
        &self.0
    }
}

impl<E> DerefMut for Render<E> {
    fn deref_mut(&mut self) -> (r: &mut Result<(), E>)
        ensures
            *r == old(self).spec_result(),
            final(self).spec_result() == *final(r),
    {
        &mut self.0
    }
}

impl<E> From<Render<E>> for Result<(), E> {
    fn from(render: Render<E>) -> (r: Self) {
        render.0
    }
}

impl<E> FromSpecImpl<Render<E>> for Result<(), E> {
    open spec fn obeys_from_spec() -> bool {
        true
    }

    open spec fn from_spec(render: Render<E>) -> Self {
        render.spec_result()
    }
}

/// Opaque buffer binding.
///
/// This type represents a bound buffer. It can be used along with a uniform to customize a
/// shader’s behavior.
///
/// # Parametricity
///
/// - `T` is the type of the carried item by the buffer.
///
/// # Notes
///
/// You shouldn’t try to do store / cache or do anything special with that value. Consider it
/// an opaque object.
#[derive(Debug)]
pub struct BufferBinding<T> {
    binding: u32,
    _phantom: PhantomData<T>,
}

impl<T> BufferBinding<T> {
    /// The binding point of the buffer.
    pub closed spec fn spec_binding(self) -> u32 {
        self.binding
    }

    /// The binding of a buffer bound at the point `binding`, as a backend reports it.
    pub fn new(binding: u32) -> (r: Self)
        ensures
            r.spec_binding() == binding,
    {
        BufferBinding { binding, _phantom: PhantomData }
    }

    /// Access the underlying binding value.
    ///
    /// # Notes
    ///
    /// That value shouldn’t be read nor store, as it’s only meaningful for backend implementations.
    pub fn binding(self) -> (r: u32)
        ensures
            r == self.spec_binding(),
    {
        self.binding
    }
}

/// Opaque texture binding.
///
/// This type represents a bound texture. It can be used along with a uniform to customize a
/// shader’s behavior.
///
/// # Parametricity
///
/// - `D` is the dimension of the bound texture. It must implement
///   [`Dimensionable`](crate::texture::Dimensionable) in most useful methods.
/// - `S` is the sampler type. It must implement [`SamplerType`](crate::pixel::SamplerType) in
///   most useful methods.
///
/// # Notes
///
/// You shouldn’t try to do store / cache or do anything special with that value. Consider it
/// an opaque object.
#[derive(Debug)]
pub struct TextureBinding<D, S> {
    binding: u32,
    _phantom: PhantomData<(D, S)>,
}

impl<D, S> TextureBinding<D, S> {
    /// The binding point of the texture.
    pub closed spec fn spec_binding(self) -> u32 {
        self.binding
    }

    /// The binding of a texture bound at the point `binding`, as a backend reports it.
    pub fn new(binding: u32) -> (r: Self)
        ensures
            r.spec_binding() == binding,
    {
        TextureBinding { binding, _phantom: PhantomData }
    }

    /// Access the underlying binding value.
    ///
    /// # Notes
    ///
    /// That value shouldn’t be read nor store, as it’s only meaningful for backend implementations.
    pub fn binding(self) -> (r: u32)
        ensures
            r == self.spec_binding(),
    {
        self.binding
    }
}

/// A GPU pipeline handle.
///
/// A [`Pipeline`] is a special object that is provided as soon as one enters a [`PipelineGate`].
/// It is used to dynamically modify the behavior of the running graphics pipeline. That includes,
/// for instance, obtaining _bound resources_, like buffers and textures, for subsequent uses in
/// shader stages.
///
/// # Parametricity
///
/// - `B` is the backend type. It must implement [`PipelineBase`].
pub struct Pipeline<'a, B> where B: ?Sized + PipelineBase {
    repr: B::PipelineRepr,
    _phantom: PhantomData<&'a mut ()>,
}

impl<'a, B> Pipeline<'a, B> where B: ?Sized + PipelineBase {
    /// The backend representation of the pipeline.
    pub closed spec fn spec_repr(&self) -> B::PipelineRepr {
        self.repr
    }
}

impl<'a, B> Pipeline<'a, B> where B: PipelineBase {
    /// Bind a buffer.
    ///
    /// Once the buffer is bound, the [`BoundBuffer`] object has to be dropped / die in order to
    /// bind the buffer again.
    pub fn bind_buffer<T>(&'a self, buffer: &'a mut Buffer<B, T>) -> (r: Result<
        BoundBuffer<'a, B, T>,
        PipelineError,
    >) where B: PipelineBuffer<T>, T: Copy
        ensures
            r is Ok,
    {
        let repr = B::bind_buffer(&self.repr, &buffer.repr)?;
        Ok(BoundBuffer { repr, _phantom: PhantomData })
    }

    /// Bind a texture.
    ///
    /// Once the texture is bound, the [`BoundTexture`] object has to be dropped / die in order to
    /// bind the texture again.
    pub fn bind_texture<D, P>(&'a self, texture: &'a mut Texture<B, D, P>) -> (r: Result<
        BoundTexture<'a, B, D, P>,
        PipelineError,
    >) where B: PipelineTexture<D, P>, D: Dimensionable, P: Pixel
        ensures
            r is Ok,
    {
        let repr = B::bind_texture(&self.repr, &texture.repr)?;
        Ok(BoundTexture { repr, _phantom: PhantomData })
    }
}

/// Top-most node in a graphics pipeline.
///
/// [`PipelineGate`] nodes represent the “entry-points” of graphics pipelines. They are used
/// with a [`Framebuffer`] to render to and a `PipelineState` to customize the overall behavior
/// of the pipeline.
///
/// # Parametricity
///
/// - `B`, the backend type.
///
/// [`Framebuffer`]: crate::framebuffer::Framebuffer

pub struct PipelineGate<'a, B> where B: ?Sized {
    backend: &'a mut B,
}

impl<'a, B> PipelineGate<'a, B> where B: ?Sized {
    /// The backend used for rendering.
    pub closed spec fn spec_backend(&self) -> &'a mut B {
        self.backend
    }

    /// Create a new [`PipelineGate`].
    pub fn new<C>(ctx: &'a mut C) -> (r: Self) where C: GraphicsContext<Backend = B>
        ensures
            &*r.spec_backend() == old(ctx).spec_backend(),
    {
        PipelineGate::from_backend(ctx.backend())
    }

    /// A gate over a backend.
    pub(crate) fn from_backend(backend: &'a mut B) -> (r: Self)
        ensures
            &*r.spec_backend() == &*old(backend),
    {
        PipelineGate { backend }
    }

    /// Its backend, to start a pipeline on a framebuffer with.
    pub fn backend(&mut self) -> (r: &mut B)
        ensures
            &*r == &*old(self).spec_backend(),
            &*final(self).spec_backend() == &*final(r),
    {
        &mut *self.backend
    }

    /// Enter a pipeline whose framebuffer has been started: create the [`Pipeline`], and call
    /// `f` once, with it and a [`ShadingGate`] over the backend that created it. The render holds
    /// what `f` returns.
    pub fn enter<'b, E, F>(&'b mut self, f: F) -> (r: Render<E>) where
        B: PipelineBase,
        F: FnOnce(Pipeline<'b, B>, ShadingGate<'b, B>) -> Result<(), E>,
        E: From<PipelineError>,
        requires
            forall|pipeline: Pipeline<'b, B>, gate: ShadingGate<'b, B>| call_requires(
                f,
                (pipeline, gate),
            ),
        ensures
            exists|pipeline: Pipeline<'b, B>, gate: ShadingGate<'b, B>|
                #[trigger] call_ensures(f, (pipeline, gate), r.spec_result()) && {
                    &&& (*gate.spec_backend()).spec_pipelines() == (*old(
                        self,
                    ).spec_backend()).spec_pipelines().push(pipeline.spec_repr())
                },
    {
        let pipeline = match self.backend.new_pipeline() {
            Ok(repr) => Pipeline { repr, _phantom: PhantomData },
            Err(e) => {
                proof {
                    assert(false);
                }
                return Render(Err(E::from(e)));
            },
        };
        let ghost pipelines = (*self.backend).spec_pipelines();
        let shading_gate = ShadingGate { backend: &mut *self.backend };
        let ghost gate = shading_gate;
        assert((*gate.backend).spec_pipelines() == pipelines);
        let ghost made = pipeline;
        let r = f(pipeline, shading_gate);
        proof {
            gate.lemma_backend();
            assert(call_ensures(f, (made, gate), r));
        }
        Render(r)
    }
}

/// A _bound_ [`Buffer`].
///
/// # Parametricity
///
/// - `B` is the backend type. It must implement [`PipelineBuffer`].
/// - `T` is the type of the carried item by the [`Buffer`].
pub struct BoundBuffer<'a, B, T> where B: PipelineBuffer<T>, T: Copy {
    pub(crate) repr: B::BoundBufferRepr,
    _phantom: PhantomData<&'a T>,
}

impl<'a, B, T> BoundBuffer<'a, B, T> where B: PipelineBuffer<T>, T: Copy {
    /// The binding point the backend gave the buffer.
    pub closed spec fn spec_binding(&self) -> u32 {
        B::spec_buffer_binding(&self.repr)
    }

    /// Obtain a [`BufferBinding`] object that can be used to refer to this bound buffer in shader
    /// stages.
    pub fn binding(&self) -> (r: BufferBinding<T>)
        ensures
            r.spec_binding() == self.spec_binding(),
    {
        let binding = B::buffer_binding(&self.repr);
        BufferBinding::new(binding)
    }
}

/// A _bound_ [`Texture`].
///
/// # Parametricity
///
/// - `B` is the backend type. It must implement [`PipelineTexture`].
/// - `D` is the dimension. It must implement [`Dimensionable`].
/// - `P` is the format of the carried pixels by the [`Texture`]. It must implement [`Pixel`].
pub struct BoundTexture<'a, B, D, P> where B: PipelineTexture<D, P>, D: Dimensionable, P: Pixel {
    pub(crate) repr: B::BoundTextureRepr,
    _phantom: PhantomData<&'a ()>,
}

impl<'a, B, D, P> BoundTexture<'a, B, D, P> where B: PipelineTexture<D, P>, D: Dimensionable, P: Pixel {
    /// The binding point the backend gave the texture.
    pub closed spec fn spec_binding(&self) -> u32 {
        B::spec_texture_binding(&self.repr)
    }

    /// Obtain a [`TextureBinding`] object that can be used to refer to this bound texture in shader
    /// stages.
    pub fn binding(&self) -> (r: TextureBinding<D, P::SamplerType>)
        ensures
            r.spec_binding() == self.spec_binding(),
    {
        let binding = B::texture_binding(&self.repr);
        TextureBinding::new(binding)
    }
}

} // verus!
