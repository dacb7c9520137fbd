//! Framebuffers and render targets.
//!
//! A framebuffer is a GPU object which responsibility is to hold renders — i.e. a rasterized
//! scene. Currently, a framebuffer is the only support of rendering: you cannot render directly
//! into a texture. Instead, you have to use a [`Framebuffer`], which automatically handles for
//! you the texture creation, mapping and handling to receive renders.
//!
//! # Framebuffer creation
//!
//! Framebuffers are created via the [`Framebuffer::new`] method. Creating framebuffers require a
//! bit of explanation as it highly depends on _refinement types_. When you create a new
//! framebuffer, you are required to provide types to drive the creation and subsequent possible
//! operations you will be able to perform. Framebuffers have three important type variables:
//!
//! - `D`, a type representing a dimension and that must implement [`Dimensionable`]. That types
//!   gives information on what kind of sizes and offsets a framebuffer will operate on/with.
//! - `CS`, a _color slot_. Color slots are described in the [backend::color_slot] module.
//! - `DS`, a _depth slot_. Depth slots are described in the [backend::depth_slot] module.
//!
//! You are limited in which types you can choose — the list is visible as implementors of traits
//! in [backend::color_slot] and [backend::depth_slot].
//!
//! Once a [`Framebuffer`] is created, you can do basically two main operations on it:
//!
//! - Render things to it.
//! - Retreive color and depth slots to perform further operations.
//!
//! # Rendering to a framebuffer
//!
//! Rendering is pretty straightforward: you have to use a `PipelineGate` to initiate a render by
//! passing a reference on your [`Framebuffer`]. Once the pipeline is done, the [`Framebuffer`]
//! contains the result of the render.
//!
//! # Manipulating slots
//!
//! Slots’ types depend entirely on the types you choose in [`Framebuffer`]. The rule is that any
//! type that implements [`ColorSlot`] will be associated another type: that other type (in this
//! case, [`ColorSlot::ColorTextures`] will be the type you can use to manipulate textures. The
//! same applies to [`DepthSlot`] with [`DepthSlot::DepthTexture`].
//!
//! You can access to the color slot via [`Framebuffer::color_slot`]. You can access to the depth
//! slot via [`Framebuffer::depth_slot`]. Once you get textures from the color slots, you can use
//! them as regular textures as input of next renders, for instance.
//!
//! ## Note on type generation
//!
//! Because framebuffers are highly subject to refinement typing, types are transformed at
//! compile-time by using the type-system to provide you with a good and comfortable experience.
//! If you use a single pixel format as color slot, for instance, you will get a single texture
//! (whose pixel format will be the same as the type variable you set). The dimension of the
//! texture will be set to the same as the framebuffer, too.
//!
//! Now if you use a tuple of pixel formats, you will get a tuple of textures, each having the
//! correct pixel format. That feature allows to generate complex types by using a _pretty simple_
//! input type. This is what we call _type constructors_ — type families in functional languages.
//! All this look a bit magical but the type-system ensures it’s total and not as magic as you
//! might think.
//!
//! [backend::color_slot]: crate::backend::color_slot
//! [backend::depth_slot]: crate::backend::depth_slot
use vstd::prelude::*;
use vstd::std_specs::convert::FromSpecImpl;
use crate::backend::color_slot::{spec_indexed, ColorSlot};
use crate::backend::depth_slot::DepthSlot;
use crate::backend::framebuffer::{Framebuffer as FramebufferBackend, FramebufferBackBuffer};
use crate::backend::texture::TextureBase;
use crate::context::GraphicsContext;
use crate::pixel::PixelFormat;
use crate::texture::{Dim2, Dimensionable, Sampler, TextureError};

verus! {

/// Typed framebuffers.
///
/// # Parametricity
///
/// - `B` is the backend type.
/// - `D` is the dimension type. It must implement [`Dimensionable`].
/// - `CS` is the color slot type. It must implement [`ColorSlot`].
/// - `DS` is the depth slot type. It must implement [`DepthSlot`].
pub struct Framebuffer<B, D, CS, DS> where
    B: ?Sized + FramebufferBackend<D>,
    D: Dimensionable,
    D::Size: Copy,
    CS: ColorSlot<B, D>,
    DS: DepthSlot<B, D>,
 {
    pub(crate) repr: B::FramebufferRepr,
    color_slot: CS::ColorTextures,
    depth_slot: DS::DepthTexture,
}

impl<B, D, CS, DS> Framebuffer<B, D, CS, DS> where
    B: ?Sized + FramebufferBackend<D>,
    D: Dimensionable,
    D::Size: Copy,
    CS: ColorSlot<B, D>,
    DS: DepthSlot<B, D>,
 {
    /// The size of the framebuffer.
    pub closed spec fn spec_size(&self) -> D::Size {
        B::spec_framebuffer_size(&self.repr)
    }

    /// What the framebuffer was created with: its number of mipmaps, its sampler, and the pixel
    /// formats of its color slot and of its depth slot.
    pub closed spec fn spec_made_with(&self) -> (usize, Sampler, Seq<PixelFormat>, Option<PixelFormat>) {
        B::spec_made_with(&self.repr)
    }

    /// The color textures attached, in the order they were attached: the attachment index and
    /// the texture of each.
    pub closed spec fn spec_color_attachments(&self) -> Seq<(usize, B::TextureRepr)> {
        B::spec_color_attachments(&self.repr)
    }

    /// The depth texture attached, if one is.
    pub closed spec fn spec_depth_attachment(&self) -> Option<B::TextureRepr> {
        B::spec_depth_attachment(&self.repr)
    }

    /// Whether the framebuffer has the size `size`, was created with `mipmaps` and `sampler` for
    /// the formats of its slots, and holds the textures of its slots, made with the same size,
    /// mipmaps and sampler: the color ones attached in order at the indices `0`, `1`, etc., the
    /// depth one, if any, attached as the depth texture.
    pub open spec fn spec_made(&self, size: D::Size, mipmaps: usize, sampler: Sampler) -> bool {
        &&& self.spec_size() == size
        &&& self.spec_made_with() == (
            mipmaps,
            sampler,
            CS::spec_color_formats(),
            DS::spec_depth_format(),
        )
        &&& CS::spec_textures_made(&self.spec_color_slot(), size, mipmaps, sampler)
        &&& DS::spec_texture_made(&self.spec_depth_slot(), size, mipmaps, sampler)
        &&& self.spec_color_attachments() == spec_indexed(
            0,
            CS::spec_textures(&self.spec_color_slot()),
        )
        &&& self.spec_depth_attachment() == DS::spec_texture(&self.spec_depth_slot())
    }

    /// The color textures.
    pub closed spec fn spec_color_slot(&self) -> CS::ColorTextures {
        self.color_slot
    }

    /// The depth texture.
    pub closed spec fn spec_depth_slot(&self) -> DS::DepthTexture {
        self.depth_slot
    }

    /// Create a new framebuffer.
    ///
    /// You’re always handed at least the base level of the texture. If you require any
    /// _additional_ levels, you can pass the number via the `mipmaps` parameter.
    ///
    /// The backend is asked for a framebuffer for the formats of the slots; then the color
    /// textures are created in the order of the color slot and attached at the attachment indices
    /// `0`, `1`, etc.; then the depth texture, if any, is created and attached; then the
    /// framebuffer is checked for completeness. The first error is returned.
    pub fn new<C>(ctx: &mut C, size: D::Size, mipmaps: usize, sampler: Sampler) -> (r: Result<
        Self,
        FramebufferError,
    >) where C: GraphicsContext<Backend = B>
        requires
            CS::spec_color_formats().len() <= usize::MAX + 1,
        ensures
            final(ctx).spec_backend().spec_framebuffer_answers().len() == old(
                ctx,
            ).spec_backend().spec_framebuffer_answers().len() + 1,
            final(ctx).spec_backend().spec_framebuffer_answers().drop_last() == old(
                ctx,
            ).spec_backend().spec_framebuffer_answers(),
            final(ctx).spec_backend().spec_framebuffer_answers().last() matches Some(e) ==> r == Err::<
                Self,
                FramebufferError,
            >(e),
            r matches Ok(fb) ==> fb.spec_made(size, mipmaps, sampler)
                && final(ctx).spec_backend().spec_framebuffer_answers().last() is None,
    {
        Self::new_in(ctx.backend(), size, mipmaps, sampler)
    }

    /// Create a new framebuffer with a backend: see [`Framebuffer::new`].
    pub(crate) fn new_in(backend: &mut B, size: D::Size, mipmaps: usize, sampler: Sampler) -> (r: Result<
        Self,
        FramebufferError,
    >)
        requires
            CS::spec_color_formats().len() <= usize::MAX + 1,
        ensures
            final(backend).spec_framebuffer_answers().len() == old(
                backend,
            ).spec_framebuffer_answers().len() + 1,
            final(backend).spec_framebuffer_answers().drop_last() == old(
                backend,
            ).spec_framebuffer_answers(),
            final(backend).spec_framebuffer_answers().last() matches Some(e) ==> r == Err::<
                Self,
                FramebufferError,
            >(e),
            r matches Ok(fb) ==> fb.spec_made(size, mipmaps, sampler)
                && final(backend).spec_framebuffer_answers().last() is None,
    {
        let color_formats = CS::color_formats();
        let depth_format = DS::depth_format();
        let mut repr = match backend.new_framebuffer(
            size,
            mipmaps,
            &sampler,
            color_formats.as_slice(),
            depth_format,
        ) {
            Ok(repr) => repr,
            Err(e) => {
                return Err(e);
            },
        };
        let ghost answers = backend.spec_framebuffer_answers();
        let color_slot = match CS::reify_color_textures(backend, size, mipmaps, &sampler, &mut repr, 0) {
            Ok(textures) => textures,
            Err(e) => {
                return Err(e);
            },
        };
        let depth_slot = match DS::reify_depth_texture(backend, size, mipmaps, &sampler, &mut repr) {
            Ok(texture) => texture,
            Err(e) => {
                return Err(e);
            },
        };
        let repr = match B::validate_framebuffer(repr) {
            Ok(repr) => repr,
            Err(e) => {
                return Err(e);
            },
        };
        let fb = Framebuffer { repr, color_slot, depth_slot };
        proof {
            assert(Seq::<(usize, B::TextureRepr)>::empty() + spec_indexed(
                0,
                CS::spec_textures(&fb.color_slot),
            ) =~= spec_indexed(0, CS::spec_textures(&fb.color_slot)));
        }
        Ok(fb)
    }

    /// The backend representation of the framebuffer, to start a pipeline on it.
    pub fn repr(&self) -> (r: &B::FramebufferRepr)
        ensures
            B::spec_framebuffer_size(r) == self.spec_size(),
            B::spec_made_with(r) == self.spec_made_with(),
            B::spec_color_attachments(r) == self.spec_color_attachments(),
            B::spec_depth_attachment(r) == self.spec_depth_attachment(),
    {
        &self.repr
    }

    /// Get the size of the framebuffer.
    pub fn size(&self) -> (r: D::Size)
        ensures
            r == self.spec_size(),
    {
        B::framebuffer_size(&self.repr)
    }

    /// Access the carried [`ColorSlot`].
    pub fn color_slot(&mut self) -> (r: &mut CS::ColorTextures)
        ensures
            *r == old(self).spec_color_slot(),
            final(self).spec_color_slot() == *final(r),
            final(self).spec_depth_slot() == old(self).spec_depth_slot(),
            final(self).spec_size() == old(self).spec_size(),
            final(self).spec_made_with() == old(self).spec_made_with(),
            final(self).spec_color_attachments() == old(self).spec_color_attachments(),
            final(self).spec_depth_attachment() == old(self).spec_depth_attachment(),
    {
        &mut self.color_slot
    }

    /// Access the carried [`DepthSlot`].
    pub fn depth_slot(&mut self) -> (r: &mut DS::DepthTexture)
        ensures
            *r == old(self).spec_depth_slot(),
            final(self).spec_depth_slot() == *final(r),
            final(self).spec_color_slot() == old(self).spec_color_slot(),
            final(self).spec_size() == old(self).spec_size(),
            final(self).spec_made_with() == old(self).spec_made_with(),
            final(self).spec_color_attachments() == old(self).spec_color_attachments(),
            final(self).spec_depth_attachment() == old(self).spec_depth_attachment(),
    {
        &mut self.depth_slot
    }

    /// Consume this framebuffer and return the carried slots.
    pub fn into_slots(self) -> (r: (CS::ColorTextures, DS::DepthTexture))
        ensures
            r == (self.spec_color_slot(), self.spec_depth_slot()),
    {
        (self.color_slot, self.depth_slot)
    }

    /// Consume this framebuffer and return the carried [`ColorSlot`].
    pub fn into_color_slot(self) -> (r: CS::ColorTextures)
        ensures
            r == self.spec_color_slot(),
    {
        self.color_slot
    }

    /// Consume this framebuffer and return the carried [`DepthSlot`].
    pub fn into_depth_slot(self) -> (r: DS::DepthTexture)
        ensures
            r == self.spec_depth_slot(),
    {
        self.depth_slot
    }
}

impl<B> Framebuffer<B, Dim2, (), ()> where B: ?Sized + FramebufferBackend<Dim2> + FramebufferBackBuffer {
    /// Get the _back buffer_ from the input context and the required resolution.
    pub fn back_buffer<C>(ctx: &mut C, size: <Dim2 as Dimensionable>::Size) -> (r: Result<
        Self,
        FramebufferError,
    >) where C: GraphicsContext<Backend = B>
        ensures
            r matches Ok(fb) ==> fb.spec_size() == size,
    {
        let repr = ctx.backend().back_buffer(size)?;
        Ok(Framebuffer { repr, color_slot: (), depth_slot: () })
    }
}

/// Framebuffer error.
#[non_exhaustive]
#[derive(Clone, Debug, PartialEq, Eq)]
pub enum FramebufferError {
    /// Cannot create the framebuffer on the GPU.
    CannotCreate,
    /// Texture error.
    ///
    /// This happen while creating / associating the color / depth slots.
    TextureError(TextureError),
    /// Incomplete error.
    ///
    /// This happens when finalizing the construction of the framebuffer.
    Incomplete(IncompleteReason),
    /// Cannot attach something to a framebuffer.
    UnsupportedAttachment,
}

impl FramebufferError {
    /// Cannot create the framebuffer on the GPU.
    pub fn cannot_create() -> (r: Self)
        ensures
            r == FramebufferError::CannotCreate,
    {
        FramebufferError::CannotCreate
    }

    /// Texture error.
    pub fn texture_error(e: TextureError) -> (r: Self)
        ensures
            r == FramebufferError::TextureError(e),
    {
        FramebufferError::TextureError(e)
    }

    /// Incomplete error.
    pub fn incomplete(e: IncompleteReason) -> (r: Self)
        ensures
            r == FramebufferError::Incomplete(e),
    {
        FramebufferError::Incomplete(e)
    }

    /// Cannot attach something to a framebuffer.
    pub fn unsupported_attachment() -> (r: Self)
        ensures
            r == FramebufferError::UnsupportedAttachment,
    {
        FramebufferError::UnsupportedAttachment
    }

    /// The human-readable message of the error.
    pub open spec fn spec_text(self) -> Seq<char> {
        match self {
            FramebufferError::CannotCreate => "cannot create the framebuffer on the GPU side"@,
            FramebufferError::TextureError(e) => "framebuffer texture error: "@ + e.spec_text(),
            FramebufferError::Incomplete(e) => "incomplete framebuffer: "@ + e.spec_text(),
            FramebufferError::UnsupportedAttachment => "unsupported framebuffer attachment"@,
        }
    }

    /// The human-readable message of the error.
    pub fn to_string(&self) -> (r: String)
        ensures
            r@ == self.spec_text(),
    {
        match self {
            FramebufferError::CannotCreate => String::from_str(
                "cannot create the framebuffer on the GPU side",
            ),
            FramebufferError::TextureError(e) => {
                let mut s = String::from_str("framebuffer texture error: ");
                let t = e.to_string();
                s.append(t.as_str());
                s
            },
            FramebufferError::Incomplete(e) => {
                let mut s = String::from_str("incomplete framebuffer: ");
                let t = e.to_string();
                s.append(t.as_str());
                s
            },
            FramebufferError::UnsupportedAttachment => String::from_str(
                "unsupported framebuffer attachment",
            ),
        }
    }
}

impl From<TextureError> for FramebufferError {
    fn from(e: TextureError) -> (r: Self) {
        FramebufferError::TextureError(e)
    }
}

impl FromSpecImpl<TextureError> for FramebufferError {
    open spec fn obeys_from_spec() -> bool {
        true
    }

    open spec fn from_spec(e: TextureError) -> Self {
        FramebufferError::TextureError(e)
    }
}

impl From<IncompleteReason> for FramebufferError {
    fn from(e: IncompleteReason) -> (r: Self) {
        FramebufferError::Incomplete(e)
    }
}

impl FromSpecImpl<IncompleteReason> for FramebufferError {
    open spec fn obeys_from_spec() -> bool {
        true
    }

    open spec fn from_spec(e: IncompleteReason) -> Self {
        FramebufferError::Incomplete(e)
    }
}

/// Reason a framebuffer is incomplete.
#[derive(Clone, Debug, PartialEq, Eq, Structural)]
pub enum IncompleteReason {
    /// Incomplete framebuffer.
    Undefined,
    /// Incomplete attachment (color / depth).
    IncompleteAttachment,
    /// An attachment was missing.
    MissingAttachment,
    /// Incomplete draw buffer.
    IncompleteDrawBuffer,
    /// Incomplete read buffer.
    IncompleteReadBuffer,
    /// Unsupported framebuffer.
    Unsupported,
    /// Incomplete multisample configuration.
    IncompleteMultisample,
    /// Incomplete layer targets.
    IncompleteLayerTargets,
}

impl IncompleteReason {
    /// The human-readable message of the reason.
    pub open spec fn spec_text(self) -> Seq<char> {
        match self {
            IncompleteReason::Undefined => "incomplete reason"@,
            IncompleteReason::IncompleteAttachment => "incomplete attachment"@,
            IncompleteReason::MissingAttachment => "missing attachment"@,
            IncompleteReason::IncompleteDrawBuffer => "incomplete draw buffer"@,
            IncompleteReason::IncompleteReadBuffer => "incomplete read buffer"@,
            IncompleteReason::Unsupported => "unsupported"@,
            IncompleteReason::IncompleteMultisample => "incomplete multisample"@,
            IncompleteReason::IncompleteLayerTargets => "incomplete layer targets"@,
        }
    }

    /// The human-readable message of the reason.
    pub fn to_string(&self) -> (r: String)
        ensures
            r@ == self.spec_text(),
    {
        match self {
            IncompleteReason::Undefined => String::from_str("incomplete reason"),
            IncompleteReason::IncompleteAttachment => String::from_str("incomplete attachment"),
            IncompleteReason::MissingAttachment => String::from_str("missing attachment"),
            IncompleteReason::IncompleteDrawBuffer => String::from_str("incomplete draw buffer"),
            IncompleteReason::IncompleteReadBuffer => String::from_str("incomplete read buffer"),
            IncompleteReason::Unsupported => String::from_str("unsupported"),
            IncompleteReason::IncompleteMultisample => String::from_str("incomplete multisample"),
            IncompleteReason::IncompleteLayerTargets => String::from_str(
                "incomplete layer targets",
            ),
        }
    }
}

} // verus!
