//! Graphics context.
//!
//! # Graphics context and backends
//!
//! A graphics context is an external type typically implemented by other crates and which provides
//! support for backends. Its main scope is to unify all possible implementations of backends
//! behind a single trait: [`GraphicsContext`]. A [`GraphicsContext`] really only requires two items
//! to be implemented:
//!
//! - The type of the backend to use — [`GraphicsContext::Backend`]. That type will often be used
//!   to access the GPU, cache costly operations, etc.
//! - A method to get a mutable access to the underlying backend — [`GraphicsContext::backend`].
//!
//! Most of the time, if you want to work with _any_ windowing implementation, you will want to
//! use a type variable such as `C: GraphicsContext`. If you want to work with any context
//! supporting a specific backend, use `C: GraphicsContext<Backend = YourBackendType`. Etc.
//!
//! This crate doesn’t provide you with creating such contexts. Instead, you must do it yourself
//! or rely on crates doing it for you.
//!
//! # Default implementation of helper functions
//!
//! By default, graphics contexts automatically get several methods implemented on them. Those
//! methods are helper functions available to write code in a more elegant and compact way than
//! passing around mutable references on the context. Often, it will help you not having to
//! use type ascription, too, since the [`GraphicsContext::Backend`] type is known when calling
//! those functions.
use vstd::prelude::*;
use crate::backend::buffer::Buffer as BufferBackend;
use crate::backend::texture::{Texture as TextureBackend, TextureBase};
use crate::backend::shader::Shader;
use crate::backend::tess::Tess as TessBackend;
use crate::backend::color_slot::ColorSlot;
use crate::backend::depth_slot::DepthSlot;
use crate::backend::framebuffer::Framebuffer as FramebufferBackend;
use crate::buffer::{Buffer, BufferError};
use crate::framebuffer::{Framebuffer, FramebufferError};
use crate::conversions::borrow_str;
use crate::pipeline::PipelineGate;
use crate::shader::{ProgramBuilder, Stage, StageError, StageType};
use crate::tess::{Deinterleaved, Interleaved, TessBuilder, TessVertexData};
use crate::vertex::Semantics;
use crate::pixel::Pixel;
use crate::texture::{Dimensionable, Sampler, Texture, TextureError};

verus! {

/// Class of graphics context.
///
/// Graphics context must implement this trait to be able to be used throughout the rest of the
/// crate.
pub trait GraphicsContext: Sized {
    /// Internal type used by the backend to cache, optimize and store data. This roughly represents
    /// the GPU data / context a backend implementation needs to work correctly.
    type Backend: ?Sized;

    /// The backend of the context.
    spec fn spec_backend(&self) -> &Self::Backend;

    /// Access the underlying backend: the one the context holds, changed through the returned
    /// reference.
    fn backend(&mut self) -> (r: &mut Self::Backend)
        ensures
            &*r == old(self).spec_backend(),
            final(self).spec_backend() == &*final(r),
    ;

    /// Create a new buffer.
    ///
    /// See the documentation of [`Buffer::new`] for further details.
    fn new_buffer<T>(&mut self, len: usize) -> (r: Result<Buffer<Self::Backend, T>, BufferError>) where
        Self::Backend: BufferBackend<T>,
        T: Copy + Default,
        ensures
            r matches Ok(b) ==> b@.len() == len && forall|i: int|
                0 <= i < len ==> call_ensures(T::default, (), #[trigger] b@[i]),
    {
        let repr = self.backend().new_buffer(len)?;
        Ok(Buffer::from_repr(repr))
    }

    /// Create a new buffer from a slice.
    ///
    /// See the documentation of [`Buffer::from_vec`] for further details.
    fn new_buffer_from_vec<T, X>(&mut self, vec: X) -> (r: Result<
        Buffer<Self::Backend, T>,
        BufferError,
    >) where Self::Backend: BufferBackend<T>, X: Into<Vec<T>>, T: Copy
        ensures
            r matches Ok(b) ==> exists|v: Vec<T>|
                call_ensures(X::into, (vec,), v) && #[trigger] b@ == v@,
    {
        let v: Vec<T> = vec.into();
        let repr = self.backend().from_vec(v)?;
        Ok(Buffer::from_repr(repr))
    }

    /// Create a new buffer by repeating a value.
    ///
    /// See the documentation of [`Buffer::repeat`] for further details.
    fn new_buffer_repeating<T>(&mut self, len: usize, value: T) -> (r: Result<
        Buffer<Self::Backend, T>,
        BufferError,
    >) where Self::Backend: BufferBackend<T>, T: Copy
        ensures
            r matches Ok(b) ==> b@ == Seq::new(len as nat, |i: int| value),
    {
        let repr = self.backend().repeat(len, value)?;
        Ok(Buffer::from_repr(repr))
    }

    /// Create a new texture.
    ///
    /// Feel free to have a look at the documentation of [`Texture::new`] for further details.
    fn new_texture<D, P>(&mut self, size: D::Size, mipmaps: usize, sampler: Sampler) -> (r: Result<
        Texture<Self::Backend, D, P>,
        TextureError,
    >) where Self::Backend: TextureBackend<D, P>, D: Dimensionable, P: Pixel, D::Size: Copy
        ensures
            Texture::<Self::Backend, D, P>::spec_requests(final(self).spec_backend())
                == Texture::<Self::Backend, D, P>::spec_requests(old(self).spec_backend()).push(
                (size, mipmaps, sampler, Texture::<Self::Backend, D, P>::spec_answer(r)),
            ),
            r matches Ok(t) ==> {
                &&& t.spec_size() == size
                &&& t.spec_mipmaps() == mipmaps
                &&& t.spec_sampler() == sampler
                &&& Self::Backend::spec_texture_size(&t.spec_repr()) == size
            },
    {
        let repr = self.backend().new_texture(size, mipmaps, sampler)?;
        Ok(Texture::from_repr(repr, size))
    }

    /// Create a new pipeline gate
    fn new_pipeline_gate(&mut self) -> (r: PipelineGate<Self::Backend>)
        ensures
            &*r.spec_backend() == old(self).spec_backend(),
    {
        PipelineGate::from_backend(self.backend())
    }

    /// Create a new shader stage.
    ///
    /// See the documentation of [`Stage::new`] for further details.
    fn new_shader_stage<R>(&mut self, ty: StageType, src: R) -> (r: Result<
        Stage<Self::Backend>,
        StageError,
    >) where Self::Backend: Shader, R: AsRef<str>
        ensures
            final(self).spec_backend().spec_compiled().len() == old(
                self,
            ).spec_backend().spec_compiled().len() + 1,
            final(self).spec_backend().spec_compiled().drop_last() == old(
                self,
            ).spec_backend().spec_compiled(),
            final(self).spec_backend().spec_compiled().last().0 == ty,
            r matches Ok(s) ==> s.spec_stage() == final(self).spec_backend().spec_compiled().last(),
            final(self).spec_backend().spec_compile_answers() == old(
                self,
            ).spec_backend().spec_compile_answers().push(Stage::<Self::Backend>::spec_answer(r)),
    {
        let repr = self.backend().new_stage(ty, borrow_str(&src))?;
        Ok(Stage::from_repr(repr))
    }

    /// Create a new shader program.
    ///
    /// See the documentation of [`ProgramBuilder::new`] for further details.
    fn new_shader_program<Sem, Out, Uni>(&mut self) -> (r: ProgramBuilder<Self, Sem, Out, Uni>) where
        Self::Backend: Shader,
        Sem: Semantics,
        ensures
            &*r.spec_ctx() == &*old(self),
    {
        ProgramBuilder::from_ctx(self)
    }

    /// Create a [`TessBuilder`].
    ///
    /// See the documentation of [`TessBuilder::new`] for further details.
    fn new_tess(&mut self) -> (r: TessBuilder<Self::Backend, (), (), (), Interleaved>) where
        Self::Backend: TessBackend<(), (), (), Interleaved>,
        ensures
            r.spec_is_default(),
    {
        TessBuilder::from_backend(self.backend())
    }

    /// Create a [`TessBuilder`] with deinterleaved memory.
    ///
    /// See the documentation of [`TessBuilder::new`] for further details.
    fn new_deinterleaved_tess<V, W>(&mut self) -> (r: TessBuilder<Self::Backend, V, (), W, Deinterleaved>) where
        Self::Backend: TessBackend<V, (), W, Deinterleaved>,
        V: TessVertexData<Deinterleaved>,
        W: TessVertexData<Deinterleaved>,
        ensures
            r.spec_is_default(),
    {
        TessBuilder::from_backend(self.backend())
    }

    /// Create a new framebuffer.
    ///
    /// See the documentation of [`Framebuffer::new`] for further details.
    fn new_framebuffer<D, CS, DS>(&mut self, size: D::Size, mipmaps: usize, sampler: Sampler) -> (r:
        Result<Framebuffer<Self::Backend, D, CS, DS>, FramebufferError>) where
        Self::Backend: FramebufferBackend<D>,
        D: Dimensionable,
        D::Size: Copy,
        CS: ColorSlot<Self::Backend, D>,
        DS: DepthSlot<Self::Backend, D>,
        requires
            CS::spec_color_formats().len() <= usize::MAX + 1,
        ensures
            final(self).spec_backend().spec_framebuffer_answers().len() == old(
                self,
            ).spec_backend().spec_framebuffer_answers().len() + 1,
            final(self).spec_backend().spec_framebuffer_answers().drop_last() == old(
                self,
            ).spec_backend().spec_framebuffer_answers(),
            final(self).spec_backend().spec_framebuffer_answers().last() matches Some(e) ==> r
                == Err::<Framebuffer<Self::Backend, D, CS, DS>, FramebufferError>(e),
            r matches Ok(fb) ==> fb.spec_made(size, mipmaps, sampler)
                && final(self).spec_backend().spec_framebuffer_answers().last() is None,
    {
        Framebuffer::new_in(self.backend(), size, mipmaps, sampler)
    }
}

} // verus!
