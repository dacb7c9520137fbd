//! Texture backend interface.
//!
//! This interface defines the low-level API textures must implement to be usable.
use vstd::prelude::*;
use crate::framebuffer::FramebufferError;
use crate::pixel::Pixel;
use crate::texture::{spec_region_written, Dimensionable, GenMipmaps, Sampler, TextureError};

verus! {

/// The base texture trait.
pub trait TextureBase {
    /// The inner representation of a texture for this backend.
    type TextureRepr;

    /// The answers the backend gave to the framebuffers asked of it, in order: nothing for a
    /// framebuffer made, the error otherwise.
    spec fn spec_framebuffer_answers(&self) -> Seq<Option<FramebufferError>>;
}

/// Texture backend: creation, clearing and uploading of textures of dimension `D` holding
/// pixels of type `P`.
pub trait Texture<D, P>: TextureBase where D: Dimensionable, P: Pixel {
    /// The number of mipmaps a texture was allocated with, besides its base level.
    spec fn spec_mipmaps(texture: &Self::TextureRepr) -> usize;

    /// The texels of the base level of a texture, in order.
    spec fn spec_texels(texture: &Self::TextureRepr) -> Seq<P::Encoding>;

    /// The raw texels of the base level of a texture, in order.
    spec fn spec_raw_texels(texture: &Self::TextureRepr) -> Seq<P::RawEncoding>;

    /// The size a texture was created with.
    spec fn spec_texture_size(texture: &Self::TextureRepr) -> D::Size;

    /// The sampler a texture was created with.
    spec fn spec_sampler(texture: &Self::TextureRepr) -> Sampler;

    /// The textures asked of the backend so far, in order: the size, the number of mipmaps and the
    /// sampler asked for, and the answer.
    spec fn spec_texture_requests(&self) -> Seq<
        (D::Size, usize, Sampler, Result<Self::TextureRepr, TextureError>),
    >;

    /// Create a new texture of size `size`, with `mipmaps` extra mipmaps, sampled with `sampler`.
    fn new_texture(&mut self, size: D::Size, mipmaps: usize, sampler: Sampler) -> (r: Result<
        Self::TextureRepr,
        TextureError,
    >)
        ensures
            final(self).spec_texture_requests() == old(self).spec_texture_requests().push(
                (size, mipmaps, sampler, r),
            ),
            final(self).spec_framebuffer_answers() == old(self).spec_framebuffer_answers(),
            r matches Ok(t) ==> {
                &&& Self::spec_mipmaps(&t) == mipmaps
                &&& Self::spec_texture_size(&t) == size
                &&& Self::spec_sampler(&t) == sampler
            },
    ;

    /// The number of mipmaps of a texture.
    fn mipmaps(texture: &Self::TextureRepr) -> (r: usize)
        ensures
            r == Self::spec_mipmaps(texture),
    ;

    /// Clear the part of the texture given by `offset` and `size` with a single pixel.
    fn clear_part(
        texture: &mut Self::TextureRepr,
        gen_mipmaps: GenMipmaps,
        offset: D::Offset,
        size: D::Size,
        pixel: P::Encoding,
    ) -> (r: Result<(), TextureError>)
        ensures
            Self::spec_texture_size(final(texture)) == Self::spec_texture_size(old(texture)),
            Self::spec_sampler(final(texture)) == Self::spec_sampler(old(texture)),
            Self::spec_mipmaps(final(texture)) == Self::spec_mipmaps(old(texture)),
            r is Err ==> Self::spec_texels(final(texture)) == Self::spec_texels(old(texture)),
            r is Ok ==> spec_region_written::<D, P::Encoding>(
                Self::spec_texels(old(texture)),
                Self::spec_texels(final(texture)),
                Self::spec_texture_size(old(texture)),
                offset,
                size,
                |j: int| pixel,
            ),
    ;

    /// Clear the whole texture, of size `size`, with a single pixel.
    fn clear(
        texture: &mut Self::TextureRepr,
        gen_mipmaps: GenMipmaps,
        size: D::Size,
        pixel: P::Encoding,
    ) -> (r: Result<(), TextureError>)
        ensures
            Self::spec_texture_size(final(texture)) == Self::spec_texture_size(old(texture)),
            Self::spec_sampler(final(texture)) == Self::spec_sampler(old(texture)),
            Self::spec_mipmaps(final(texture)) == Self::spec_mipmaps(old(texture)),
            r is Ok ==> Self::spec_texels(final(texture)) == Seq::new(
                D::spec_count(size),
                |i: int| pixel,
            ),
            r is Err ==> Self::spec_texels(final(texture)) == Self::spec_texels(old(texture)),
    ;

    /// Upload texels to the part of the texture given by `offset` and `size`.
    fn upload_part(
        texture: &mut Self::TextureRepr,
        gen_mipmaps: GenMipmaps,
        offset: D::Offset,
        size: D::Size,
        texels: &[P::Encoding],
    ) -> (r: Result<(), TextureError>)
        ensures
            Self::spec_texture_size(final(texture)) == Self::spec_texture_size(old(texture)),
            Self::spec_sampler(final(texture)) == Self::spec_sampler(old(texture)),
            Self::spec_mipmaps(final(texture)) == Self::spec_mipmaps(old(texture)),
            r is Err ==> Self::spec_texels(final(texture)) == Self::spec_texels(old(texture)),
            r is Ok ==> D::spec_count(size) <= texels@.len() && spec_region_written::<D, P::Encoding>(
                Self::spec_texels(old(texture)),
                Self::spec_texels(final(texture)),
                Self::spec_texture_size(old(texture)),
                offset,
                size,
                |j: int| texels@[j],
            ),
    ;

    /// Upload texels to the whole texture, of size `size`.
    fn upload(
        texture: &mut Self::TextureRepr,
        gen_mipmaps: GenMipmaps,
        size: D::Size,
        texels: &[P::Encoding],
    ) -> (r: Result<(), TextureError>)
        ensures
            Self::spec_texture_size(final(texture)) == Self::spec_texture_size(old(texture)),
            Self::spec_sampler(final(texture)) == Self::spec_sampler(old(texture)),
            Self::spec_mipmaps(final(texture)) == Self::spec_mipmaps(old(texture)),
            r is Ok ==> D::spec_count(size) <= texels@.len() && Self::spec_texels(final(texture))
                == texels@.take(D::spec_count(size) as int),
            r is Err ==> Self::spec_texels(final(texture)) == Self::spec_texels(old(texture)),
    ;

    /// Upload raw texels to the part of the texture given by `offset` and `size`.
    fn upload_part_raw(
        texture: &mut Self::TextureRepr,
        gen_mipmaps: GenMipmaps,
        offset: D::Offset,
        size: D::Size,
        texels: &[P::RawEncoding],
    ) -> (r: Result<(), TextureError>)
        ensures
            Self::spec_texture_size(final(texture)) == Self::spec_texture_size(old(texture)),
            Self::spec_sampler(final(texture)) == Self::spec_sampler(old(texture)),
            Self::spec_mipmaps(final(texture)) == Self::spec_mipmaps(old(texture)),
            r is Err ==> Self::spec_raw_texels(final(texture)) == Self::spec_raw_texels(old(texture)),
    ;

    /// Upload raw texels to the whole texture, of size `size`.
    fn upload_raw(
        texture: &mut Self::TextureRepr,
        gen_mipmaps: GenMipmaps,
        size: D::Size,
        texels: &[P::RawEncoding],
    ) -> (r: Result<(), TextureError>)
        ensures
            Self::spec_texture_size(final(texture)) == Self::spec_texture_size(old(texture)),
            Self::spec_sampler(final(texture)) == Self::spec_sampler(old(texture)),
            Self::spec_mipmaps(final(texture)) == Self::spec_mipmaps(old(texture)),
            r is Ok ==> Self::spec_raw_texels(final(texture)).len() <= texels@.len()
                && Self::spec_raw_texels(final(texture)) == texels@.take(
                Self::spec_raw_texels(final(texture)).len() as int,
            ),
            r is Err ==> Self::spec_raw_texels(final(texture)) == Self::spec_raw_texels(
                old(texture),
            ),
    ;

    /// Get a copy of the raw texels of the whole texture, of size `size`.
    fn get_raw_texels(texture: &Self::TextureRepr, size: D::Size) -> (r: Result<
        Vec<P::RawEncoding>,
        TextureError,
    >) where P::RawEncoding: Copy + Default
        ensures
            r matches Ok(v) ==> v@ == Self::spec_raw_texels(texture),
    ;
}

} // verus!
