//! Depth slot backend interface.
//!
//! This interface defines the low-level API depth slots must implement to be usable.
use vstd::prelude::*;
use crate::backend::framebuffer::Framebuffer;
use crate::backend::texture::{Texture as TextureBackend, TextureBase};
use crate::framebuffer::FramebufferError;
use crate::pixel::{DepthPixel, Pixel, PixelFormat};
use crate::texture::{Dimensionable, Sampler, Texture, TextureError};

verus! {

/// A depth slot: the depth texture of a framebuffer, if it has one.
pub trait DepthSlot<B, D> where B: ?Sized + Framebuffer<D>, D: Dimensionable, D::Size: Copy {
    /// Texture associated with this depth slot.
    type DepthTexture;

    /// The pixel format of the depth texture, if there is one.
    spec fn spec_depth_format() -> Option<PixelFormat>;

    /// The backend representation of the depth texture, if there is one.
    spec fn spec_texture(texture: &Self::DepthTexture) -> Option<B::TextureRepr>;

    /// Whether the depth texture, if there is one, has the given size and number of mipmaps, and
    /// samples with `sampler`.
    spec fn spec_texture_made(
        texture: &Self::DepthTexture,
        size: D::Size,
        mipmaps: usize,
        sampler: Sampler,
    ) -> bool;

    /// Turn a depth slot into a pixel format.
    fn depth_format() -> (r: Option<PixelFormat>)
        ensures
            r == Self::spec_depth_format(),
    ;

    /// Reify a raw textures into a depth slot.
    ///
    /// The texture, if there is one, is created with the size, the mipmaps and the sampler given,
    /// and is attached to the framebuffer. On a failure, the error is the one of the texture
    /// creation, as a [`FramebufferError::TextureError`], or the refusal of the framebuffer.
    fn reify_depth_texture(
        backend: &mut B,
        size: D::Size,
        mipmaps: usize,
        sampler: &Sampler,
        framebuffer: &mut B::FramebufferRepr,
    ) -> (r: Result<Self::DepthTexture, FramebufferError>)
        ensures
            B::spec_framebuffer_size(final(framebuffer)) == B::spec_framebuffer_size(
                old(framebuffer),
            ),
            B::spec_made_with(final(framebuffer)) == B::spec_made_with(old(framebuffer)),
            B::spec_color_attachments(final(framebuffer)) == B::spec_color_attachments(
                old(framebuffer),
            ),
            final(backend).spec_framebuffer_answers() == old(backend).spec_framebuffer_answers(),
            r matches Ok(t) ==> {
                &&& Self::spec_texture_made(&t, size, mipmaps, *sampler)
                &&& (Self::spec_texture(&t) is Some) == (Self::spec_depth_format() is Some)
                &&& B::spec_depth_attachment(final(framebuffer)) == match Self::spec_texture(&t) {
                    Some(texture) => Some(texture),
                    None => B::spec_depth_attachment(old(framebuffer)),
                }
                &&& B::spec_refusals(final(framebuffer)) == B::spec_refusals(old(framebuffer))
            },
            r matches Err(e) ==> {
                &&& B::spec_depth_attachment(final(framebuffer)) == B::spec_depth_attachment(
                    old(framebuffer),
                )
                &&& (e is TextureError && B::spec_refusals(final(framebuffer)) == B::spec_refusals(
                    old(framebuffer),
                )) || B::spec_refusals(final(framebuffer)) == B::spec_refusals(old(framebuffer)).push(
                    e,
                )
            },
    ;
}

impl<B, D> DepthSlot<B, D> for () where B: ?Sized + Framebuffer<D>, D: Dimensionable, D::Size: Copy {
    type DepthTexture = ();

    open spec fn spec_depth_format() -> Option<PixelFormat> {
        None
    }

    open spec fn spec_texture(texture: &()) -> Option<B::TextureRepr> {
        None
    }

    open spec fn spec_texture_made(texture: &(), size: D::Size, mipmaps: usize, sampler: Sampler) -> bool {
        true
    }

    fn depth_format() -> (r: Option<PixelFormat>) {
        None
    }

    fn reify_depth_texture(
        backend: &mut B,
        size: D::Size,
        mipmaps: usize,
        sampler: &Sampler,
        framebuffer: &mut B::FramebufferRepr,
    ) -> (r: Result<(), FramebufferError>)
        ensures
            r is Ok,
            *final(framebuffer) == *old(framebuffer),
            &*final(backend) == &*old(backend),
    {
        Ok(())
    }
}

impl<B, D, P> DepthSlot<B, D> for P where
    B: ?Sized + Framebuffer<D> + TextureBackend<D, P>,
    D: Dimensionable,
    D::Size: Copy,
    P: DepthPixel,
 {
    type DepthTexture = Texture<B, D, P>;

    open spec fn spec_depth_format() -> Option<PixelFormat> {
        Some(P::spec_pixel_format())
    }

    open spec fn spec_texture(texture: &Texture<B, D, P>) -> Option<B::TextureRepr> {
        Some(texture.spec_repr())
    }

    open spec fn spec_texture_made(
        texture: &Texture<B, D, P>,
        size: D::Size,
        mipmaps: usize,
        sampler: Sampler,
    ) -> bool {
        &&& texture.spec_size() == size
        &&& texture.spec_mipmaps() == mipmaps
        &&& texture.spec_sampler() == sampler
        &&& <B as TextureBackend<D, P>>::spec_texture_size(&texture.spec_repr()) == size
    }

    fn depth_format() -> (r: Option<PixelFormat>) {
        Some(P::pixel_format())
    }

    fn reify_depth_texture(
        backend: &mut B,
        size: D::Size,
        mipmaps: usize,
        sampler: &Sampler,
        framebuffer: &mut B::FramebufferRepr,
    ) -> (r: Result<Texture<B, D, P>, FramebufferError>)
        ensures
            Texture::<B, D, P>::spec_requests(final(backend)).len() == Texture::<B, D, P>::spec_requests(
                old(backend),
            ).len() + 1,
            Texture::<B, D, P>::spec_requests(final(backend)).drop_last() == Texture::<
                B,
                D,
                P,
            >::spec_requests(old(backend)),
            ({
                let asked = Texture::<B, D, P>::spec_requests(final(backend)).last();
                &&& asked.0 == size
                &&& asked.1 == mipmaps
                &&& asked.2 == *sampler
                &&& asked.3 matches Err(t) ==> r == Err::<Texture<B, D, P>, FramebufferError>(
                    FramebufferError::TextureError(t),
                )
                &&& r matches Ok(texture) ==> asked.3 == Ok::<B::TextureRepr, TextureError>(
                    texture.spec_repr(),
                )
            }),
    {
        let repr = match <B as TextureBackend<D, P>>::new_texture(backend, size, mipmaps, *sampler) {
            Ok(repr) => repr,
            Err(e) => {
                return Err(FramebufferError::TextureError(e));
            },
        };
        let texture = Texture::from_repr(repr, size);
        match B::attach_depth_texture(framebuffer, &texture.repr) {
            Ok(()) => {},
            Err(e) => {
                return Err(e);
            },
        }
        Ok(texture)
    }
}

} // verus!
