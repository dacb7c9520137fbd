//! Framebuffer backend interface.
//!
//! This interface defines the low-level API framebuffers must implement to be usable.
use vstd::prelude::*;
use crate::backend::texture::TextureBase;
use crate::framebuffer::FramebufferError;
use crate::pixel::PixelFormat;
use crate::texture::{Dim2, Dimensionable, Sampler};

verus! {

/// Framebuffer backend: creation of framebuffers of dimension `D` and attachment of their
/// textures.
pub trait Framebuffer<D>: TextureBase where D: Dimensionable {
    /// The inner representation of a framebuffer for this backend.
    type FramebufferRepr;

    /// The size of a framebuffer.
    spec fn spec_framebuffer_size(framebuffer: &Self::FramebufferRepr) -> D::Size;

    /// What a framebuffer was created with: its number of mipmaps, its sampler, and the pixel
    /// formats of its color slot and of its depth slot.
    spec fn spec_made_with(framebuffer: &Self::FramebufferRepr) -> (
        usize,
        Sampler,
        Seq<PixelFormat>,
        Option<PixelFormat>,
    );

    /// The color textures attached to a framebuffer, in the order they were attached: the
    /// attachment index and the texture of each.
    spec fn spec_color_attachments(framebuffer: &Self::FramebufferRepr) -> Seq<(usize, Self::TextureRepr)>;

    /// The depth texture attached to a framebuffer, if one is.
    spec fn spec_depth_attachment(framebuffer: &Self::FramebufferRepr) -> Option<Self::TextureRepr>;

    /// The attachments a framebuffer refused, in order: the error of each.
    spec fn spec_refusals(framebuffer: &Self::FramebufferRepr) -> Seq<FramebufferError>;

    /// Why a framebuffer is not complete, if it is not.
    spec fn spec_incompleteness(framebuffer: &Self::FramebufferRepr) -> Option<FramebufferError>;

    /// Create a new framebuffer of size `size`, with nothing attached to it yet.
    ///
    /// `color_formats` and `depth_format` are the pixel formats of the color slot and of the depth
    /// slot whose textures will be attached to it.
    fn new_framebuffer(
        &mut self,
        size: D::Size,
        mipmaps: usize,
        sampler: &Sampler,
        color_formats: &[PixelFormat],
        depth_format: Option<PixelFormat>,
    ) -> (r: Result<Self::FramebufferRepr, FramebufferError>)
        ensures
            final(self).spec_framebuffer_answers() == old(self).spec_framebuffer_answers().push(
                match r {
                    Ok(_) => None,
                    Err(e) => Some(e),
                },
            ),
            r matches Ok(fb) ==> {
                &&& Self::spec_framebuffer_size(&fb) == size
                &&& Self::spec_made_with(&fb) == (mipmaps, *sampler, color_formats@, depth_format)
                &&& Self::spec_color_attachments(&fb) == Seq::<(usize, Self::TextureRepr)>::empty()
                &&& Self::spec_depth_attachment(&fb) is None
                &&& Self::spec_refusals(&fb) == Seq::<FramebufferError>::empty()
            },
    ;

    /// Attach a color texture to a framebuffer, at the given attachment index; a refusal is
    /// recorded.
    fn attach_color_texture(
        framebuffer: &mut Self::FramebufferRepr,
        texture: &Self::TextureRepr,
        attachment_index: usize,
    ) -> (r: Result<(), FramebufferError>)
        ensures
            Self::spec_framebuffer_size(final(framebuffer)) == Self::spec_framebuffer_size(
                old(framebuffer),
            ),
            Self::spec_made_with(final(framebuffer)) == Self::spec_made_with(old(framebuffer)),
            Self::spec_depth_attachment(final(framebuffer)) == Self::spec_depth_attachment(
                old(framebuffer),
            ),
            r is Ok ==> Self::spec_color_attachments(final(framebuffer))
                == Self::spec_color_attachments(old(framebuffer)).push((attachment_index, *texture))
                && Self::spec_refusals(final(framebuffer)) == Self::spec_refusals(old(framebuffer)),
            r matches Err(e) ==> Self::spec_color_attachments(final(framebuffer))
                == Self::spec_color_attachments(old(framebuffer)) && Self::spec_refusals(
                final(framebuffer),
            ) == Self::spec_refusals(old(framebuffer)).push(e),
    ;

    /// Attach a depth texture to a framebuffer; a refusal is recorded.
    fn attach_depth_texture(framebuffer: &mut Self::FramebufferRepr, texture: &Self::TextureRepr) -> (r:
        Result<(), FramebufferError>)
        ensures
            Self::spec_framebuffer_size(final(framebuffer)) == Self::spec_framebuffer_size(
                old(framebuffer),
            ),
            Self::spec_made_with(final(framebuffer)) == Self::spec_made_with(old(framebuffer)),
            Self::spec_color_attachments(final(framebuffer)) == Self::spec_color_attachments(
                old(framebuffer),
            ),
            r is Ok ==> Self::spec_depth_attachment(final(framebuffer)) == Some(*texture)
                && Self::spec_refusals(final(framebuffer)) == Self::spec_refusals(old(framebuffer)),
            r matches Err(e) ==> Self::spec_depth_attachment(final(framebuffer))
                == Self::spec_depth_attachment(old(framebuffer)) && Self::spec_refusals(
                final(framebuffer),
            ) == Self::spec_refusals(old(framebuffer)).push(e),
    ;

    /// Check that a framebuffer is complete, giving it back if it is, and why it is not
    /// otherwise.
    fn validate_framebuffer(framebuffer: Self::FramebufferRepr) -> (r: Result<
        Self::FramebufferRepr,
        FramebufferError,
    >)
        ensures
            match r {
                Ok(fb) => {
                    &&& Self::spec_incompleteness(&framebuffer) is None
                    &&& Self::spec_framebuffer_size(&fb) == Self::spec_framebuffer_size(&framebuffer)
                    &&& Self::spec_made_with(&fb) == Self::spec_made_with(&framebuffer)
                    &&& Self::spec_color_attachments(&fb) == Self::spec_color_attachments(
                        &framebuffer,
                    )
                    &&& Self::spec_depth_attachment(&fb) == Self::spec_depth_attachment(
                        &framebuffer,
                    )
                },
                Err(e) => Self::spec_incompleteness(&framebuffer) == Some(e),
            },
    ;

    /// The size of a framebuffer.
    fn framebuffer_size(framebuffer: &Self::FramebufferRepr) -> (r: D::Size)
        ensures
            r == Self::spec_framebuffer_size(framebuffer),
    ;
}

/// Back buffer backend: the framebuffer the screen shows.
pub trait FramebufferBackBuffer: Framebuffer<Dim2> {
    /// Get the back buffer, of size `size`.
    fn back_buffer(&mut self, size: <Dim2 as Dimensionable>::Size) -> (r: Result<
        Self::FramebufferRepr,
        FramebufferError,
    >)
        ensures
            r matches Ok(fb) ==> Self::spec_framebuffer_size(&fb) == size,
    ;
}

} // verus!
