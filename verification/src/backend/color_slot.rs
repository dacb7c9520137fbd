//! Color slot backend interface.
//!
//! This interface defines the low-level API color slots must implement to be usable.
//!
//! A color slot is either nothing (`()`), a single color pixel type or a tuple of color pixel
//! types. Its color textures are created in that order and attached to the framebuffer at
//! consecutive attachment indices.
use vstd::prelude::*;
use crate::backend::framebuffer::Framebuffer;
use crate::backend::texture::{Texture as TextureBackend, TextureBase};
use crate::framebuffer::FramebufferError;
use crate::pixel::{ColorPixel, Pixel, PixelFormat, RenderablePixel};
use crate::texture::{Dimensionable, Sampler, Texture, TextureError};

verus! {

/// The attachments of `textures`, in order, at the consecutive indices that start at `start`.
pub open spec fn spec_indexed<R>(start: usize, textures: Seq<R>) -> Seq<(usize, R)> {
    Seq::new(textures.len(), |i: int| ((start + i) as usize, textures[i]))
}

/// Attaching one more texture after the attachments of `textures` from `start` gives the
/// attachments of `textures` and that texture.
pub proof fn lemma_indexed_push<R>(s: Seq<(usize, R)>, start: usize, textures: Seq<R>, texture: R)
    ensures
        (s + spec_indexed(start, textures)).push(((start + textures.len()) as usize, texture)) == s
            + spec_indexed(start, textures.push(texture)),
{
    assert((s + spec_indexed(start, textures)).push(((start + textures.len()) as usize, texture))
        =~= s + spec_indexed(start, textures.push(texture)));
}

/// A slot of one texture that failed, after the attachments of `textures` from `start`, leaves
/// those.
proof fn lemma_failed_slot<R>(
    before: Seq<(usize, R)>,
    start: usize,
    textures: Seq<R>,
    mid: Seq<(usize, R)>,
    index: usize,
    rest: Seq<R>,
    after: Seq<(usize, R)>,
)
    requires
        mid == before + spec_indexed(start, textures),
        rest.len() < 1,
        after == mid + spec_indexed(index, rest),
    ensures
        after == before + spec_indexed(start, textures),
{
    assert(spec_indexed(index, rest) =~= Seq::<(usize, R)>::empty());
    assert(mid + Seq::<(usize, R)>::empty() =~= mid);
}

/// The color textures of a framebuffer are attached in the order of the color slot, at distinct
/// indices: the `k`-th one at the `k`-th index from the first.
pub proof fn law_attachments_in_order<R>(start: usize, textures: Seq<R>, k: int, l: int)
    requires
        start + textures.len() <= usize::MAX + 1,
        0 <= k < textures.len(),
        0 <= l < textures.len(),
    ensures
        spec_indexed(start, textures).len() == textures.len(),
        spec_indexed(start, textures)[k] == ((start + k) as usize, textures[k]),
        k != l ==> spec_indexed(start, textures)[k].0 != spec_indexed(start, textures)[l].0,
{
}

/// A color slot: the color textures of a framebuffer.
pub trait ColorSlot<B, D> where B: ?Sized + Framebuffer<D>, D: Dimensionable, D::Size: Copy {
    /// Textures associated with this color slot.
    type ColorTextures;

    /// The pixel formats of the color textures, in order.
    spec fn spec_color_formats() -> Seq<PixelFormat>;

    /// The backend representations of the color textures, in order.
    spec fn spec_textures(textures: &Self::ColorTextures) -> Seq<B::TextureRepr>;

    /// Whether every color texture has the given size and number of mipmaps, and samples with
    /// `sampler`.
    spec fn spec_textures_made(
        textures: &Self::ColorTextures,
        size: D::Size,
        mipmaps: usize,
        sampler: Sampler,
    ) -> bool;

    /// Turn a color slot into a list of pixel formats.
    fn color_formats() -> (r: Vec<PixelFormat>)
        ensures
            r@ == Self::spec_color_formats(),
    ;

    /// Reify a list of raw textures.
    ///
    /// The textures are created with the size, the mipmaps and the sampler given, and are
    /// attached to the framebuffer in order, at the consecutive attachment indices that start at
    /// `attachment_index`. On a failure, the textures of the slots before it stay attached, and
    /// the error is the one of the texture creation, as a [`FramebufferError::TextureError`], or
    /// the refusal of the framebuffer.
    fn reify_color_textures(
        backend: &mut B,
        size: D::Size,
        mipmaps: usize,
        sampler: &Sampler,
        framebuffer: &mut B::FramebufferRepr,
        attachment_index: usize,
    ) -> (r: Result<Self::ColorTextures, FramebufferError>)
        requires
            attachment_index + Self::spec_color_formats().len() <= usize::MAX + 1,
        ensures
            B::spec_framebuffer_size(final(framebuffer)) == B::spec_framebuffer_size(
                old(framebuffer),
            ),
            B::spec_made_with(final(framebuffer)) == B::spec_made_with(old(framebuffer)),
            B::spec_depth_attachment(final(framebuffer)) == B::spec_depth_attachment(
                old(framebuffer),
            ),
            final(backend).spec_framebuffer_answers() == old(backend).spec_framebuffer_answers(),
            r matches Ok(t) ==> {
                &&& Self::spec_textures_made(&t, size, mipmaps, *sampler)
                &&& Self::spec_textures(&t).len() == Self::spec_color_formats().len()
                &&& B::spec_color_attachments(final(framebuffer)) == B::spec_color_attachments(
                    old(framebuffer),
                ) + spec_indexed(attachment_index, Self::spec_textures(&t))
                &&& B::spec_refusals(final(framebuffer)) == B::spec_refusals(old(framebuffer))
            },
            r matches Err(e) ==> {
                &&& exists|textures: Seq<B::TextureRepr>|
                    textures.len() < Self::spec_color_formats().len() && B::spec_color_attachments(
                        final(framebuffer),
                    ) == B::spec_color_attachments(old(framebuffer)) + #[trigger] spec_indexed(
                        attachment_index,
                        textures,
                    )
                &&& (e is TextureError && B::spec_refusals(final(framebuffer)) == B::spec_refusals(
                    old(framebuffer),
                )) || B::spec_refusals(final(framebuffer)) == B::spec_refusals(old(framebuffer)).push(
                    e,
                )
            },
    ;
}

impl<B, D> ColorSlot<B, D> for () where B: ?Sized + Framebuffer<D>, D: Dimensionable, D::Size: Copy {
    type ColorTextures = ();

    open spec fn spec_color_formats() -> Seq<PixelFormat> {
        Seq::empty()
    }

    open spec fn spec_textures(textures: &()) -> Seq<B::TextureRepr> {
        Seq::empty()
    }

    open spec fn spec_textures_made(textures: &(), size: D::Size, mipmaps: usize, sampler: Sampler) -> bool {
        true
    }

    fn color_formats() -> (r: Vec<PixelFormat>) {
        Vec::new()
    }

    fn reify_color_textures(
        backend: &mut B,
        size: D::Size,
        mipmaps: usize,
        sampler: &Sampler,
        framebuffer: &mut B::FramebufferRepr,
        attachment_index: usize,
    ) -> (r: Result<(), FramebufferError>)
        ensures
            r is Ok,
            *final(framebuffer) == *old(framebuffer),
            &*final(backend) == &*old(backend),
    {
        proof {
            assert(B::spec_color_attachments(framebuffer) =~= B::spec_color_attachments(framebuffer)
                + spec_indexed(attachment_index, Seq::<B::TextureRepr>::empty()));
        }
        Ok(())
    }
}

impl<B, D, P> ColorSlot<B, D> for P where
    B: ?Sized + Framebuffer<D> + TextureBackend<D, P>,
    D: Dimensionable,
    D::Size: Copy,
    P: ColorPixel + RenderablePixel,
 {
    type ColorTextures = Texture<B, D, P>;

    open spec fn spec_color_formats() -> Seq<PixelFormat> {
        seq![P::spec_pixel_format()]
    }

    open spec fn spec_textures(textures: &Texture<B, D, P>) -> Seq<B::TextureRepr> {
        seq![textures.spec_repr()]
    }

    open spec fn spec_textures_made(
        textures: &Texture<B, D, P>,
        size: D::Size,
        mipmaps: usize,
        sampler: Sampler,
    ) -> bool {
        &&& textures.spec_size() == size
        &&& textures.spec_mipmaps() == mipmaps
        &&& textures.spec_sampler() == sampler
        &&& <B as TextureBackend<D, P>>::spec_texture_size(&textures.spec_repr()) == size
    }

    fn color_formats() -> (r: Vec<PixelFormat>) {
        let mut v = Vec::new();
        v.push(P::pixel_format());
        proof {
            assert(v@ =~= seq![P::spec_pixel_format()]);
        }
        v
    }

    fn reify_color_textures(
        backend: &mut B,
        size: D::Size,
        mipmaps: usize,
        sampler: &Sampler,
        framebuffer: &mut B::FramebufferRepr,
        attachment_index: usize,
    ) -> (r: Result<Texture<B, D, P>, FramebufferError>)
        ensures
            Texture::<B, D, P>::spec_requests(final(backend)).len() == Texture::<B, D, P>::spec_requests(
                old(backend),
            ).len() + 1,
            Texture::<B, D, P>::spec_requests(final(backend)).drop_last() == Texture::<
                B,
                D,
                P,
            >::spec_requests(old(backend)),
            ({
                let asked = Texture::<B, D, P>::spec_requests(final(backend)).last();
                &&& asked.0 == size
                &&& asked.1 == mipmaps
                &&& asked.2 == *sampler
                &&& asked.3 matches Err(t) ==> r == Err::<Texture<B, D, P>, FramebufferError>(
                    FramebufferError::TextureError(t),
                )
                &&& r matches Ok(texture) ==> asked.3 == Ok::<B::TextureRepr, TextureError>(
                    texture.spec_repr(),
                )
            }),
    {
        let ghost before = B::spec_color_attachments(framebuffer);
        proof {
            assert(before + spec_indexed(attachment_index, Seq::<B::TextureRepr>::empty()) =~= before);
        }
        let repr = match <B as TextureBackend<D, P>>::new_texture(backend, size, mipmaps, *sampler) {
            Ok(repr) => repr,
            Err(e) => {
                return Err(FramebufferError::TextureError(e));
            },
        };
        let texture = Texture::from_repr(repr, size);
        match B::attach_color_texture(framebuffer, &texture.repr, attachment_index) {
            Ok(()) => {},
            Err(e) => {
                return Err(e);
            },
        }
        proof {
            lemma_indexed_push(before, attachment_index, Seq::<B::TextureRepr>::empty(), repr);
            assert(Seq::<B::TextureRepr>::empty().push(repr) =~= seq![repr]);
        }
        Ok(texture)
    }
}

impl<B, D, P10, P11> ColorSlot<B, D> for (P10, P11) where
    B: ?Sized + Framebuffer<D> + TextureBackend<D, P10> + TextureBackend<D, P11>,
    D: Dimensionable,
    D::Size: Copy,
    P10: ColorPixel + RenderablePixel,
    P11: ColorPixel + RenderablePixel,
 {
    type ColorTextures = (Texture<B, D, P10>, Texture<B, D, P11>);

    open spec fn spec_color_formats() -> Seq<PixelFormat> {
        seq![P10::spec_pixel_format(), P11::spec_pixel_format()]
    }

    open spec fn spec_textures(textures: &(Texture<B, D, P10>, Texture<B, D, P11>)) -> Seq<B::TextureRepr> {
        seq![textures.0.spec_repr(), textures.1.spec_repr()]
    }

    open spec fn spec_textures_made(textures: &(Texture<B, D, P10>, Texture<B, D, P11>), size: D::Size, mipmaps: usize, sampler: Sampler) -> bool {
        &&& <P10 as ColorSlot<B, D>>::spec_textures_made(&textures.0, size, mipmaps, sampler)
        &&& <P11 as ColorSlot<B, D>>::spec_textures_made(&textures.1, size, mipmaps, sampler)
    }

    fn color_formats() -> (r: Vec<PixelFormat>) {
        let mut v = Vec::new();
        v.push(P10::pixel_format());
        v.push(P11::pixel_format());
        proof {
            assert(v@ =~= seq![P10::spec_pixel_format(), P11::spec_pixel_format()]);
        }
        v
    }

    #[verifier::rlimit(50)]
    fn reify_color_textures(
        backend: &mut B,
        size: D::Size,
        mipmaps: usize,
        sampler: &Sampler,
        framebuffer: &mut B::FramebufferRepr,
        attachment_index: usize,
    ) -> (r: Result<(Texture<B, D, P10>, Texture<B, D, P11>), FramebufferError>) {
        let ghost before = B::spec_color_attachments(framebuffer);
        let ghost mut reprs = Seq::<B::TextureRepr>::empty();
        proof {
            assert(before + spec_indexed(attachment_index, reprs) =~= before);
        }
        let mut index: usize = attachment_index;
        let ghost mid = B::spec_color_attachments(framebuffer);
        let t0 = match <P10 as ColorSlot<B, D>>::reify_color_textures(
            backend,
            size,
            mipmaps,
            sampler,
            framebuffer,
            index,
        ) {
            Ok(t) => t,
            Err(e) => {
                proof {
                    assert(<P10 as ColorSlot<B, D>>::spec_color_formats().len() == 1);
                    let rest = choose|rest: Seq<B::TextureRepr>|
                        rest.len() < <P10 as ColorSlot<B, D>>::spec_color_formats().len()
                            && B::spec_color_attachments(framebuffer) == mid + #[trigger] spec_indexed(
                            index,
                            rest,
                        );
                    lemma_failed_slot(
                        before,
                        attachment_index,
                        reprs,
                        mid,
                        index,
                        rest,
                        B::spec_color_attachments(framebuffer),
                    );
                    assert(reprs.len() < 2);
                }
                return Err(e);
            },
        };
        proof {
            assert(<P10 as ColorSlot<B, D>>::spec_textures(&t0) =~= seq![t0.spec_repr()]);
            assert(mid + spec_indexed(index, seq![t0.spec_repr()]) =~= mid.push((index, t0.spec_repr())));
            lemma_indexed_push(before, attachment_index, reprs, t0.spec_repr());
            reprs = reprs.push(t0.spec_repr());
            assert(B::spec_color_attachments(framebuffer) == before + spec_indexed(attachment_index, reprs));
        }
        index = index + 1;
        let ghost mid = B::spec_color_attachments(framebuffer);
        let t1 = match <P11 as ColorSlot<B, D>>::reify_color_textures(
            backend,
            size,
            mipmaps,
            sampler,
            framebuffer,
            index,
        ) {
            Ok(t) => t,
            Err(e) => {
                proof {
                    assert(<P11 as ColorSlot<B, D>>::spec_color_formats().len() == 1);
                    let rest = choose|rest: Seq<B::TextureRepr>|
                        rest.len() < <P11 as ColorSlot<B, D>>::spec_color_formats().len()
                            && B::spec_color_attachments(framebuffer) == mid + #[trigger] spec_indexed(
                            index,
                            rest,
                        );
                    lemma_failed_slot(
                        before,
                        attachment_index,
                        reprs,
                        mid,
                        index,
                        rest,
                        B::spec_color_attachments(framebuffer),
                    );
                    assert(reprs.len() < 2);
                }
                return Err(e);
            },
        };
        proof {
            assert(<P11 as ColorSlot<B, D>>::spec_textures(&t1) =~= seq![t1.spec_repr()]);
            assert(mid + spec_indexed(index, seq![t1.spec_repr()]) =~= mid.push((index, t1.spec_repr())));
            lemma_indexed_push(before, attachment_index, reprs, t1.spec_repr());
            reprs = reprs.push(t1.spec_repr());
            assert(B::spec_color_attachments(framebuffer) == before + spec_indexed(attachment_index, reprs));
        }
        let textures = (t0, t1);
        proof {
            assert(reprs =~= seq![textures.0.spec_repr(), textures.1.spec_repr()]);
        }
        Ok(textures)
    }
}

impl<B, D, P9, P10, P11> ColorSlot<B, D> for (P9, P10, P11) where
    B: ?Sized + Framebuffer<D> + TextureBackend<D, P9> + TextureBackend<D, P10> + TextureBackend<D, P11>,
    D: Dimensionable,
    D::Size: Copy,
    P9: ColorPixel + RenderablePixel,
    P10: ColorPixel + RenderablePixel,
    P11: ColorPixel + RenderablePixel,
 {
    type ColorTextures = (Texture<B, D, P9>, Texture<B, D, P10>, Texture<B, D, P11>);

    open spec fn spec_color_formats() -> Seq<PixelFormat> {
        seq![P9::spec_pixel_format(), P10::spec_pixel_format(), P11::spec_pixel_format()]
    }

    open spec fn spec_textures(textures: &(Texture<B, D, P9>, Texture<B, D, P10>, Texture<B, D, P11>)) -> Seq<B::TextureRepr> {
        seq![textures.0.spec_repr(), textures.1.spec_repr(), textures.2.spec_repr()]
    }

    open spec fn spec_textures_made(textures: &(Texture<B, D, P9>, Texture<B, D, P10>, Texture<B, D, P11>), size: D::Size, mipmaps: usize, sampler: Sampler) -> bool {
        &&& <P9 as ColorSlot<B, D>>::spec_textures_made(&textures.0, size, mipmaps, sampler)
        &&& <P10 as ColorSlot<B, D>>::spec_textures_made(&textures.1, size, mipmaps, sampler)
        &&& <P11 as ColorSlot<B, D>>::spec_textures_made(&textures.2, size, mipmaps, sampler)
    }

    fn color_formats() -> (r: Vec<PixelFormat>) {
        let mut v = Vec::new();
        v.push(P9::pixel_format());
        v.push(P10::pixel_format());
        v.push(P11::pixel_format());
        proof {
            assert(v@ =~= seq![P9::spec_pixel_format(), P10::spec_pixel_format(), P11::spec_pixel_format()]);
        }
        v
    }

    #[verifier::rlimit(50)]
    fn reify_color_textures(
        backend: &mut B,
        size: D::Size,
        mipmaps: usize,
        sampler: &Sampler,
        framebuffer: &mut B::FramebufferRepr,
        attachment_index: usize,
    ) -> (r: Result<(Texture<B, D, P9>, Texture<B, D, P10>, Texture<B, D, P11>), FramebufferError>) {
        let ghost before = B::spec_color_attachments(framebuffer);
        let ghost mut reprs = Seq::<B::TextureRepr>::empty();
        proof {
            assert(before + spec_indexed(attachment_index, reprs) =~= before);
        }
        let mut index: usize = attachment_index;
        let ghost mid = B::spec_color_attachments(framebuffer);
        let t0 = match <P9 as ColorSlot<B, D>>::reify_color_textures(
            backend,
            size,
            mipmaps,
            sampler,
            framebuffer,
            index,
        ) {
            Ok(t) => t,
            Err(e) => {
                proof {
                    assert(<P9 as ColorSlot<B, D>>::spec_color_formats().len() == 1);
                    let rest = choose|rest: Seq<B::TextureRepr>|
                        rest.len() < <P9 as ColorSlot<B, D>>::spec_color_formats().len()
                            && B::spec_color_attachments(framebuffer) == mid + #[trigger] spec_indexed(
                            index,
                            rest,
                        );
                    lemma_failed_slot(
                        before,
                        attachment_index,
                        reprs,
                        mid,
                        index,
                        rest,
                        B::spec_color_attachments(framebuffer),
                    );
                    assert(reprs.len() < 3);
                }
                return Err(e);
            },
        };
        proof {
            assert(<P9 as ColorSlot<B, D>>::spec_textures(&t0) =~= seq![t0.spec_repr()]);
            assert(mid + spec_indexed(index, seq![t0.spec_repr()]) =~= mid.push((index, t0.spec_repr())));
            lemma_indexed_push(before, attachment_index, reprs, t0.spec_repr());
            reprs = reprs.push(t0.spec_repr());
            assert(B::spec_color_attachments(framebuffer) == before + spec_indexed(attachment_index, reprs));
        }
        index = index + 1;
        let ghost mid = B::spec_color_attachments(framebuffer);
        let t1 = match <P10 as ColorSlot<B, D>>::reify_color_textures(
            backend,
            size,
            mipmaps,
            sampler,
            framebuffer,
            index,
        ) {
            Ok(t) => t,
            Err(e) => {
                proof {
                    assert(<P10 as ColorSlot<B, D>>::spec_color_formats().len() == 1);
                    let rest = choose|rest: Seq<B::TextureRepr>|
                        rest.len() < <P10 as ColorSlot<B, D>>::spec_color_formats().len()
                            && B::spec_color_attachments(framebuffer) == mid + #[trigger] spec_indexed(
                            index,
                            rest,
                        );
                    lemma_failed_slot(
                        before,
                        attachment_index,
                        reprs,
                        mid,
                        index,
                        rest,
                        B::spec_color_attachments(framebuffer),
                    );
                    assert(reprs.len() < 3);
                }
                return Err(e);
            },
        };
        proof {
            assert(<P10 as ColorSlot<B, D>>::spec_textures(&t1) =~= seq![t1.spec_repr()]);
            assert(mid + spec_indexed(index, seq![t1.spec_repr()]) =~= mid.push((index, t1.spec_repr())));
            lemma_indexed_push(before, attachment_index, reprs, t1.spec_repr());
            reprs = reprs.push(t1.spec_repr());
            assert(B::spec_color_attachments(framebuffer) == before + spec_indexed(attachment_index, reprs));
        }
        index = index + 1;
        let ghost mid = B::spec_color_attachments(framebuffer);
        let t2 = match <P11 as ColorSlot<B, D>>::reify_color_textures(
            backend,
            size,
            mipmaps,
            sampler,
            framebuffer,
            index,
        ) {
            Ok(t) => t,
            Err(e) => {
                proof {
                    assert(<P11 as ColorSlot<B, D>>::spec_color_formats().len() == 1);
                    let rest = choose|rest: Seq<B::TextureRepr>|
                        rest.len() < <P11 as ColorSlot<B, D>>::spec_color_formats().len()
                            && B::spec_color_attachments(framebuffer) == mid + #[trigger] spec_indexed(
                            index,
                            rest,
                        );
                    lemma_failed_slot(
                        before,
                        attachment_index,
                        reprs,
                        mid,
                        index,
                        rest,
                        B::spec_color_attachments(framebuffer),
                    );
                    assert(reprs.len() < 3);
                }
                return Err(e);
            },
        };
        proof {
            assert(<P11 as ColorSlot<B, D>>::spec_textures(&t2) =~= seq![t2.spec_repr()]);
            assert(mid + spec_indexed(index, seq![t2.spec_repr()]) =~= mid.push((index, t2.spec_repr())));
            lemma_indexed_push(before, attachment_index, reprs, t2.spec_repr());
            reprs = reprs.push(t2.spec_repr());
            assert(B::spec_color_attachments(framebuffer) == before + spec_indexed(attachment_index, reprs));
        }
        let textures = (t0, t1, t2);
        proof {
            assert(reprs =~= seq![textures.0.spec_repr(), textures.1.spec_repr(), textures.2.spec_repr()]);
        }
        Ok(textures)
    }
}

impl<B, D, P8, P9, P10, P11> ColorSlot<B, D> for (P8, P9, P10, P11) where
    B: ?Sized + Framebuffer<D> + TextureBackend<D, P8> + TextureBackend<D, P9> + TextureBackend<D, P10> + TextureBackend<D, P11>,
    D: Dimensionable,
    D::Size: Copy,
    P8: ColorPixel + RenderablePixel,
    P9: ColorPixel + RenderablePixel,
    P10: ColorPixel + RenderablePixel,
    P11: ColorPixel + RenderablePixel,
 {
    type ColorTextures = (Texture<B, D, P8>, Texture<B, D, P9>, Texture<B, D, P10>, Texture<B, D, P11>);

    open spec fn spec_color_formats() -> Seq<PixelFormat> {
        seq![P8::spec_pixel_format(), P9::spec_pixel_format(), P10::spec_pixel_format(), P11::spec_pixel_format()]
    }

    open spec fn spec_textures(textures: &(Texture<B, D, P8>, Texture<B, D, P9>, Texture<B, D, P10>, Texture<B, D, P11>)) -> Seq<B::TextureRepr> {
        seq![textures.0.spec_repr(), textures.1.spec_repr(), textures.2.spec_repr(), textures.3.spec_repr()]
    }

    open spec fn spec_textures_made(textures: &(Texture<B, D, P8>, Texture<B, D, P9>, Texture<B, D, P10>, Texture<B, D, P11>), size: D::Size, mipmaps: usize, sampler: Sampler) -> bool {
        &&& <P8 as ColorSlot<B, D>>::spec_textures_made(&textures.0, size, mipmaps, sampler)
        &&& <P9 as ColorSlot<B, D>>::spec_textures_made(&textures.1, size, mipmaps, sampler)
        &&& <P10 as ColorSlot<B, D>>::spec_textures_made(&textures.2, size, mipmaps, sampler)
        &&& <P11 as ColorSlot<B, D>>::spec_textures_made(&textures.3, size, mipmaps, sampler)
    }

    fn color_formats() -> (r: Vec<PixelFormat>) {
        let mut v = Vec::new();
        v.push(P8::pixel_format());
        v.push(P9::pixel_format());
        v.push(P10::pixel_format());
        v.push(P11::pixel_format());
        proof {
            assert(v@ =~= seq![P8::spec_pixel_format(), P9::spec_pixel_format(), P10::spec_pixel_format(), P11::spec_pixel_format()]);
        }
        v
    }

    #[verifier::rlimit(50)]
    fn reify_color_textures(
        backend: &mut B,
        size: D::Size,
        mipmaps: usize,
        sampler: &Sampler,
        framebuffer: &mut B::FramebufferRepr,
        attachment_index: usize,
    ) -> (r: Result<(Texture<B, D, P8>, Texture<B, D, P9>, Texture<B, D, P10>, Texture<B, D, P11>), FramebufferError>) {
        let ghost before = B::spec_color_attachments(framebuffer);
        let ghost mut reprs = Seq::<B::TextureRepr>::empty();
        proof {
            assert(before + spec_indexed(attachment_index, reprs) =~= before);
        }
        let mut index: usize = attachment_index;
        let ghost mid = B::spec_color_attachments(framebuffer);
        let t0 = match <P8 as ColorSlot<B, D>>::reify_color_textures(
            backend,
            size,
            mipmaps,
            sampler,
            framebuffer,
            index,
        ) {
            Ok(t) => t,
            Err(e) => {
                proof {
                    assert(<P8 as ColorSlot<B, D>>::spec_color_formats().len() == 1);
                    let rest = choose|rest: Seq<B::TextureRepr>|
                        rest.len() < <P8 as ColorSlot<B, D>>::spec_color_formats().len()
                            && B::spec_color_attachments(framebuffer) == mid + #[trigger] spec_indexed(
                            index,
                            rest,
                        );
                    lemma_failed_slot(
                        before,
                        attachment_index,
                        reprs,
                        mid,
                        index,
                        rest,
                        B::spec_color_attachments(framebuffer),
                    );
                    assert(reprs.len() < 4);
                }
                return Err(e);
            },
        };
        proof {
            assert(<P8 as ColorSlot<B, D>>::spec_textures(&t0) =~= seq![t0.spec_repr()]);
            assert(mid + spec_indexed(index, seq![t0.spec_repr()]) =~= mid.push((index, t0.spec_repr())));
            lemma_indexed_push(before, attachment_index, reprs, t0.spec_repr());
            reprs = reprs.push(t0.spec_repr());
            assert(B::spec_color_attachments(framebuffer) == before + spec_indexed(attachment_index, reprs));
        }
        index = index + 1;
        let ghost mid = B::spec_color_attachments(framebuffer);
        let t1 = match <P9 as ColorSlot<B, D>>::reify_color_textures(
            backend,
            size,
            mipmaps,
            sampler,
            framebuffer,
            index,
        ) {
            Ok(t) => t,
            Err(e) => {
                proof {
                    assert(<P9 as ColorSlot<B, D>>::spec_color_formats().len() == 1);
                    let rest = choose|rest: Seq<B::TextureRepr>|
                        rest.len() < <P9 as ColorSlot<B, D>>::spec_color_formats().len()
                            && B::spec_color_attachments(framebuffer) == mid + #[trigger] spec_indexed(
                            index,
                            rest,
                        );
                    lemma_failed_slot(
                        before,
                        attachment_index,
                        reprs,
                        mid,
                        index,
                        rest,
                        B::spec_color_attachments(framebuffer),
                    );
                    assert(reprs.len() < 4);
                }
                return Err(e);
            },
        };
        proof {
            assert(<P9 as ColorSlot<B, D>>::spec_textures(&t1) =~= seq![t1.spec_repr()]);
            assert(mid + spec_indexed(index, seq![t1.spec_repr()]) =~= mid.push((index, t1.spec_repr())));
            lemma_indexed_push(before, attachment_index, reprs, t1.spec_repr());
            reprs = reprs.push(t1.spec_repr());
            assert(B::spec_color_attachments(framebuffer) == before + spec_indexed(attachment_index, reprs));
        }
        index = index + 1;
        let ghost mid = B::spec_color_attachments(framebuffer);
        let t2 = match <P10 as ColorSlot<B, D>>::reify_color_textures(
            backend,
            size,
            mipmaps,
            sampler,
            framebuffer,
            index,
        ) {
            Ok(t) => t,
            Err(e) => {
                proof {
                    assert(<P10 as ColorSlot<B, D>>::spec_color_formats().len() == 1);
                    let rest = choose|rest: Seq<B::TextureRepr>|
                        rest.len() < <P10 as ColorSlot<B, D>>::spec_color_formats().len()
                            && B::spec_color_attachments(framebuffer) == mid + #[trigger] spec_indexed(
                            index,
                            rest,
                        );
                    lemma_failed_slot(
                        before,
                        attachment_index,
                        reprs,
                        mid,
                        index,
                        rest,
                        B::spec_color_attachments(framebuffer),
                    );
                    assert(reprs.len() < 4);
                }
                return Err(e);
            },
        };
        proof {
            assert(<P10 as ColorSlot<B, D>>::spec_textures(&t2) =~= seq![t2.spec_repr()]);
            assert(mid + spec_indexed(index, seq![t2.spec_repr()]) =~= mid.push((index, t2.spec_repr())));
            lemma_indexed_push(before, attachment_index, reprs, t2.spec_repr());
            reprs = reprs.push(t2.spec_repr());
            assert(B::spec_color_attachments(framebuffer) == before + spec_indexed(attachment_index, reprs));
        }
        index = index + 1;
        let ghost mid = B::spec_color_attachments(framebuffer);
        let t3 = match <P11 as ColorSlot<B, D>>::reify_color_textures(
            backend,
            size,
            mipmaps,
            sampler,
            framebuffer,
            index,
        ) {
            Ok(t) => t,
            Err(e) => {
                proof {
                    assert(<P11 as ColorSlot<B, D>>::spec_color_formats().len() == 1);
                    let rest = choose|rest: Seq<B::TextureRepr>|
                        rest.len() < <P11 as ColorSlot<B, D>>::spec_color_formats().len()
                            && B::spec_color_attachments(framebuffer) == mid + #[trigger] spec_indexed(
                            index,
                            rest,
                        );
                    lemma_failed_slot(
                        before,
                        attachment_index,
                        reprs,
                        mid,
                        index,
                        rest,
                        B::spec_color_attachments(framebuffer),
                    );
                    assert(reprs.len() < 4);
                }
                return Err(e);
            },
        };
        proof {
            assert(<P11 as ColorSlot<B, D>>::spec_textures(&t3) =~= seq![t3.spec_repr()]);
            assert(mid + spec_indexed(index, seq![t3.spec_repr()]) =~= mid.push((index, t3.spec_repr())));
            lemma_indexed_push(before, attachment_index, reprs, t3.spec_repr());
            reprs = reprs.push(t3.spec_repr());
            assert(B::spec_color_attachments(framebuffer) == before + spec_indexed(attachment_index, reprs));
        }
        let textures = (t0, t1, t2, t3);
        proof {
            assert(reprs =~= seq![textures.0.spec_repr(), textures.1.spec_repr(), textures.2.spec_repr(), textures.3.spec_repr()]);
        }
        Ok(textures)
    }
}

impl<B, D, P7, P8, P9, P10, P11> ColorSlot<B, D> for (P7, P8, P9, P10, P11) where
    B: ?Sized + Framebuffer<D> + TextureBackend<D, P7> + TextureBackend<D, P8> + TextureBackend<D, P9> + TextureBackend<D, P10> + TextureBackend<D, P11>,
    D: Dimensionable,
    D::Size: Copy,
    P7: ColorPixel + RenderablePixel,
    P8: ColorPixel + RenderablePixel,
    P9: ColorPixel + RenderablePixel,
    P10: ColorPixel + RenderablePixel,
    P11: ColorPixel + RenderablePixel,
 {
    type ColorTextures = (Texture<B, D, P7>, Texture<B, D, P8>, Texture<B, D, P9>, Texture<B, D, P10>, Texture<B, D, P11>);

    open spec fn spec_color_formats() -> Seq<PixelFormat> {
        seq![P7::spec_pixel_format(), P8::spec_pixel_format(), P9::spec_pixel_format(), P10::spec_pixel_format(), P11::spec_pixel_format()]
    }

    open spec fn spec_textures(textures: &(Texture<B, D, P7>, Texture<B, D, P8>, Texture<B, D, P9>, Texture<B, D, P10>, Texture<B, D, P11>)) -> Seq<B::TextureRepr> {
        seq![textures.0.spec_repr(), textures.1.spec_repr(), textures.2.spec_repr(), textures.3.spec_repr(), textures.4.spec_repr()]
    }

    open spec fn spec_textures_made(textures: &(Texture<B, D, P7>, Texture<B, D, P8>, Texture<B, D, P9>, Texture<B, D, P10>, Texture<B, D, P11>), size: D::Size, mipmaps: usize, sampler: Sampler) -> bool {
        &&& <P7 as ColorSlot<B, D>>::spec_textures_made(&textures.0, size, mipmaps, sampler)
        &&& <P8 as ColorSlot<B, D>>::spec_textures_made(&textures.1, size, mipmaps, sampler)
        &&& <P9 as ColorSlot<B, D>>::spec_textures_made(&textures.2, size, mipmaps, sampler)
        &&& <P10 as ColorSlot<B, D>>::spec_textures_made(&textures.3, size, mipmaps, sampler)
        &&& <P11 as ColorSlot<B, D>>::spec_textures_made(&textures.4, size, mipmaps, sampler)
    }

    fn color_formats() -> (r: Vec<PixelFormat>) {
        let mut v = Vec::new();
        v.push(P7::pixel_format());
        v.push(P8::pixel_format());
        v.push(P9::pixel_format());
        v.push(P10::pixel_format());
        v.push(P11::pixel_format());
        proof {
            assert(v@ =~= seq![P7::spec_pixel_format(), P8::spec_pixel_format(), P9::spec_pixel_format(), P10::spec_pixel_format(), P11::spec_pixel_format()]);
        }
        v
    }

    #[verifier::rlimit(50)]
    fn reify_color_textures(
        backend: &mut B,
        size: D::Size,
        mipmaps: usize,
        sampler: &Sampler,
        framebuffer: &mut B::FramebufferRepr,
        attachment_index: usize,
    ) -> (r: Result<(Texture<B, D, P7>, Texture<B, D, P8>, Texture<B, D, P9>, Texture<B, D, P10>, Texture<B, D, P11>), FramebufferError>) {
        let ghost before = B::spec_color_attachments(framebuffer);
        let ghost mut reprs = Seq::<B::TextureRepr>::empty();
        proof {
            assert(before + spec_indexed(attachment_index, reprs) =~= before);
        }
        let mut index: usize = attachment_index;
        let ghost mid = B::spec_color_attachments(framebuffer);
        let t0 = match <P7 as ColorSlot<B, D>>::reify_color_textures(
            backend,
            size,
            mipmaps,
            sampler,
            framebuffer,
            index,
        ) {
            Ok(t) => t,
            Err(e) => {
                proof {
                    assert(<P7 as ColorSlot<B, D>>::spec_color_formats().len() == 1);
                    let rest = choose|rest: Seq<B::TextureRepr>|
                        rest.len() < <P7 as ColorSlot<B, D>>::spec_color_formats().len()
                            && B::spec_color_attachments(framebuffer) == mid + #[trigger] spec_indexed(
                            index,
                            rest,
                        );
                    lemma_failed_slot(
                        before,
                        attachment_index,
                        reprs,
                        mid,
                        index,
                        rest,
                        B::spec_color_attachments(framebuffer),
                    );
                    assert(reprs.len() < 5);
                }
                return Err(e);
            },
        };
        proof {
            assert(<P7 as ColorSlot<B, D>>::spec_textures(&t0) =~= seq![t0.spec_repr()]);
            assert(mid + spec_indexed(index, seq![t0.spec_repr()]) =~= mid.push((index, t0.spec_repr())));
            lemma_indexed_push(before, attachment_index, reprs, t0.spec_repr());
            reprs = reprs.push(t0.spec_repr());
            assert(B::spec_color_attachments(framebuffer) == before + spec_indexed(attachment_index, reprs));
        }
        index = index + 1;
        let ghost mid = B::spec_color_attachments(framebuffer);
        let t1 = match <P8 as ColorSlot<B, D>>::reify_color_textures(
            backend,
            size,
            mipmaps,
            sampler,
            framebuffer,
            index,
        ) {
            Ok(t) => t,
            Err(e) => {
                proof {
                    assert(<P8 as ColorSlot<B, D>>::spec_color_formats().len() == 1);
                    let rest = choose|rest: Seq<B::TextureRepr>|
                        rest.len() < <P8 as ColorSlot<B, D>>::spec_color_formats().len()
                            && B::spec_color_attachments(framebuffer) == mid + #[trigger] spec_indexed(
                            index,
                            rest,
                        );
                    lemma_failed_slot(
                        before,
                        attachment_index,
                        reprs,
                        mid,
                        index,
                        rest,
                        B::spec_color_attachments(framebuffer),
                    );
                    assert(reprs.len() < 5);
                }
                return Err(e);
            },
        };
        proof {
            assert(<P8 as ColorSlot<B, D>>::spec_textures(&t1) =~= seq![t1.spec_repr()]);
            assert(mid + spec_indexed(index, seq![t1.spec_repr()]) =~= mid.push((index, t1.spec_repr())));
            lemma_indexed_push(before, attachment_index, reprs, t1.spec_repr());
            reprs = reprs.push(t1.spec_repr());
            assert(B::spec_color_attachments(framebuffer) == before + spec_indexed(attachment_index, reprs));
        }
        index = index + 1;
        let ghost mid = B::spec_color_attachments(framebuffer);
        let t2 = match <P9 as ColorSlot<B, D>>::reify_color_textures(
            backend,
            size,
            mipmaps,
            sampler,
            framebuffer,
            index,
        ) {
            Ok(t) => t,
            Err(e) => {
                proof {
                    assert(<P9 as ColorSlot<B, D>>::spec_color_formats().len() == 1);
                    let rest = choose|rest: Seq<B::TextureRepr>|
                        rest.len() < <P9 as ColorSlot<B, D>>::spec_color_formats().len()
                            && B::spec_color_attachments(framebuffer) == mid + #[trigger] spec_indexed(
                            index,
                            rest,
                        );
                    lemma_failed_slot(
                        before,
                        attachment_index,
                        reprs,
                        mid,
                        index,
                        rest,
                        B::spec_color_attachments(framebuffer),
                    );
                    assert(reprs.len() < 5);
                }
                return Err(e);
            },
        };
        proof {
            assert(<P9 as ColorSlot<B, D>>::spec_textures(&t2) =~= seq![t2.spec_repr()]);
            assert(mid + spec_indexed(index, seq![t2.spec_repr()]) =~= mid.push((index, t2.spec_repr())));
            lemma_indexed_push(before, attachment_index, reprs, t2.spec_repr());
            reprs = reprs.push(t2.spec_repr());
            assert(B::spec_color_attachments(framebuffer) == before + spec_indexed(attachment_index, reprs));
        }
        index = index + 1;
        let ghost mid = B::spec_color_attachments(framebuffer);
        let t3 = match <P10 as ColorSlot<B, D>>::reify_color_textures(
            backend,
            size,
            mipmaps,
            sampler,
            framebuffer,
            index,
        ) {
            Ok(t) => t,
            Err(e) => {
                proof {
                    assert(<P10 as ColorSlot<B, D>>::spec_color_formats().len() == 1);
                    let rest = choose|rest: Seq<B::TextureRepr>|
                        rest.len() < <P10 as ColorSlot<B, D>>::spec_color_formats().len()
                            && B::spec_color_attachments(framebuffer) == mid + #[trigger] spec_indexed(
                            index,
                            rest,
                        );
                    lemma_failed_slot(
                        before,
                        attachment_index,
                        reprs,
                        mid,
                        index,
                        rest,
                        B::spec_color_attachments(framebuffer),
                    );
                    assert(reprs.len() < 5);
                }
                return Err(e);
            },
        };
        proof {
            assert(<P10 as ColorSlot<B, D>>::spec_textures(&t3) =~= seq![t3.spec_repr()]);
            assert(mid + spec_indexed(index, seq![t3.spec_repr()]) =~= mid.push((index, t3.spec_repr())));
            lemma_indexed_push(before, attachment_index, reprs, t3.spec_repr());
            reprs = reprs.push(t3.spec_repr());
            assert(B::spec_color_attachments(framebuffer) == before + spec_indexed(attachment_index, reprs));
        }
        index = index + 1;
        let ghost mid = B::spec_color_attachments(framebuffer);
        let t4 = match <P11 as ColorSlot<B, D>>::reify_color_textures(
            backend,
            size,
            mipmaps,
            sampler,
            framebuffer,
            index,
        ) {
            Ok(t) => t,
            Err(e) => {
                proof {
                    assert(<P11 as ColorSlot<B, D>>::spec_color_formats().len() == 1);
                    let rest = choose|rest: Seq<B::TextureRepr>|
                        rest.len() < <P11 as ColorSlot<B, D>>::spec_color_formats().len()
                            && B::spec_color_attachments(framebuffer) == mid + #[trigger] spec_indexed(
                            index,
                            rest,
                        );
                    lemma_failed_slot(
                        before,
                        attachment_index,
                        reprs,
                        mid,
                        index,
                        rest,
                        B::spec_color_attachments(framebuffer),
                    );
                    assert(reprs.len() < 5);
                }
                return Err(e);
            },
        };
        proof {
            assert(<P11 as ColorSlot<B, D>>::spec_textures(&t4) =~= seq![t4.spec_repr()]);
            assert(mid + spec_indexed(index, seq![t4.spec_repr()]) =~= mid.push((index, t4.spec_repr())));
            lemma_indexed_push(before, attachment_index, reprs, t4.spec_repr());
            reprs = reprs.push(t4.spec_repr());
            assert(B::spec_color_attachments(framebuffer) == before + spec_indexed(attachment_index, reprs));
        }
        let textures = (t0, t1, t2, t3, t4);
        proof {
            assert(reprs =~= seq![textures.0.spec_repr(), textures.1.spec_repr(), textures.2.spec_repr(), textures.3.spec_repr(), textures.4.spec_repr()]);
        }
        Ok(textures)
    }
}

impl<B, D, P6, P7, P8, P9, P10, P11> ColorSlot<B, D> for (P6, P7, P8, P9, P10, P11) where
    B: ?Sized + Framebuffer<D> + TextureBackend<D, P6> + TextureBackend<D, P7> + TextureBackend<D, P8> + TextureBackend<D, P9> + TextureBackend<D, P10> + TextureBackend<D, P11>,
    D: Dimensionable,
    D::Size: Copy,
    P6: ColorPixel + RenderablePixel,
    P7: ColorPixel + RenderablePixel,
    P8: ColorPixel + RenderablePixel,
    P9: ColorPixel + RenderablePixel,
    P10: ColorPixel + RenderablePixel,
    P11: ColorPixel + RenderablePixel,
 {
    type ColorTextures = (Texture<B, D, P6>, Texture<B, D, P7>, Texture<B, D, P8>, Texture<B, D, P9>, Texture<B, D, P10>, Texture<B, D, P11>);

    open spec fn spec_color_formats() -> Seq<PixelFormat> {
        seq![P6::spec_pixel_format(), P7::spec_pixel_format(), P8::spec_pixel_format(), P9::spec_pixel_format(), P10::spec_pixel_format(), P11::spec_pixel_format()]
    }

    open spec fn spec_textures(textures: &(Texture<B, D, P6>, Texture<B, D, P7>, Texture<B, D, P8>, Texture<B, D, P9>, Texture<B, D, P10>, Texture<B, D, P11>)) -> Seq<B::TextureRepr> {
        seq![textures.0.spec_repr(), textures.1.spec_repr(), textures.2.spec_repr(), textures.3.spec_repr(), textures.4.spec_repr(), textures.5.spec_repr()]
    }

    open spec fn spec_textures_made(textures: &(Texture<B, D, P6>, Texture<B, D, P7>, Texture<B, D, P8>, Texture<B, D, P9>, Texture<B, D, P10>, Texture<B, D, P11>), size: D::Size, mipmaps: usize, sampler: Sampler) -> bool {
        &&& <P6 as ColorSlot<B, D>>::spec_textures_made(&textures.0, size, mipmaps, sampler)
        &&& <P7 as ColorSlot<B, D>>::spec_textures_made(&textures.1, size, mipmaps, sampler)
        &&& <P8 as ColorSlot<B, D>>::spec_textures_made(&textures.2, size, mipmaps, sampler)
        &&& <P9 as ColorSlot<B, D>>::spec_textures_made(&textures.3, size, mipmaps, sampler)
        &&& <P10 as ColorSlot<B, D>>::spec_textures_made(&textures.4, size, mipmaps, sampler)
        &&& <P11 as ColorSlot<B, D>>::spec_textures_made(&textures.5, size, mipmaps, sampler)
    }

    fn color_formats() -> (r: Vec<PixelFormat>) {
        let mut v = Vec::new();
        v.push(P6::pixel_format());
        v.push(P7::pixel_format());
        v.push(P8::pixel_format());
        v.push(P9::pixel_format());
        v.push(P10::pixel_format());
        v.push(P11::pixel_format());
        proof {
            assert(v@ =~= seq![P6::spec_pixel_format(), P7::spec_pixel_format(), P8::spec_pixel_format(), P9::spec_pixel_format(), P10::spec_pixel_format(), P11::spec_pixel_format()]);
        }
        v
    }

    #[verifier::rlimit(50)]
    fn reify_color_textures(
        backend: &mut B,
        size: D::Size,
        mipmaps: usize,
        sampler: &Sampler,
        framebuffer: &mut B::FramebufferRepr,
        attachment_index: usize,
    ) -> (r: Result<(Texture<B, D, P6>, Texture<B, D, P7>, Texture<B, D, P8>, Texture<B, D, P9>, Texture<B, D, P10>, Texture<B, D, P11>), FramebufferError>) {
        let ghost before = B::spec_color_attachments(framebuffer);
        let ghost mut reprs = Seq::<B::TextureRepr>::empty();
        proof {
            assert(before + spec_indexed(attachment_index, reprs) =~= before);
        }
        let mut index: usize = attachment_index;
        let ghost mid = B::spec_color_attachments(framebuffer);
        let t0 = match <P6 as ColorSlot<B, D>>::reify_color_textures(
            backend,
            size,
            mipmaps,
            sampler,
            framebuffer,
            index,
        ) {
            Ok(t) => t,
            Err(e) => {
                proof {
                    assert(<P6 as ColorSlot<B, D>>::spec_color_formats().len() == 1);
                    let rest = choose|rest: Seq<B::TextureRepr>|
                        rest.len() < <P6 as ColorSlot<B, D>>::spec_color_formats().len()
                            && B::spec_color_attachments(framebuffer) == mid + #[trigger] spec_indexed(
                            index,
                            rest,
                        );
                    lemma_failed_slot(
                        before,
                        attachment_index,
                        reprs,
                        mid,
                        index,
                        rest,
                        B::spec_color_attachments(framebuffer),
                    );
                    assert(reprs.len() < 6);
                }
                return Err(e);
            },
        };
        proof {
            assert(<P6 as ColorSlot<B, D>>::spec_textures(&t0) =~= seq![t0.spec_repr()]);
            assert(mid + spec_indexed(index, seq![t0.spec_repr()]) =~= mid.push((index, t0.spec_repr())));
            lemma_indexed_push(before, attachment_index, reprs, t0.spec_repr());
            reprs = reprs.push(t0.spec_repr());
            assert(B::spec_color_attachments(framebuffer) == before + spec_indexed(attachment_index, reprs));
        }
        index = index + 1;
        let ghost mid = B::spec_color_attachments(framebuffer);
        let t1 = match <P7 as ColorSlot<B, D>>::reify_color_textures(
            backend,
            size,
            mipmaps,
            sampler,
            framebuffer,
            index,
        ) {
            Ok(t) => t,
            Err(e) => {
                proof {
                    assert(<P7 as ColorSlot<B, D>>::spec_color_formats().len() == 1);
                    let rest = choose|rest: Seq<B::TextureRepr>|
                        rest.len() < <P7 as ColorSlot<B, D>>::spec_color_formats().len()
                            && B::spec_color_attachments(framebuffer) == mid + #[trigger] spec_indexed(
                            index,
                            rest,
                        );
                    lemma_failed_slot(
                        before,
                        attachment_index,
                        reprs,
                        mid,
                        index,
                        rest,
                        B::spec_color_attachments(framebuffer),
                    );
                    assert(reprs.len() < 6);
                }
                return Err(e);
            },
        };
        proof {
            assert(<P7 as ColorSlot<B, D>>::spec_textures(&t1) =~= seq![t1.spec_repr()]);
            assert(mid + spec_indexed(index, seq![t1.spec_repr()]) =~= mid.push((index, t1.spec_repr())));
            lemma_indexed_push(before, attachment_index, reprs, t1.spec_repr());
            reprs = reprs.push(t1.spec_repr());
            assert(B::spec_color_attachments(framebuffer) == before + spec_indexed(attachment_index, reprs));
        }
        index = index + 1;
        let ghost mid = B::spec_color_attachments(framebuffer);
        let t2 = match <P8 as ColorSlot<B, D>>::reify_color_textures(
            backend,
            size,
            mipmaps,
            sampler,
            framebuffer,
            index,
        ) {
            Ok(t) => t,
            Err(e) => {
                proof {
                    assert(<P8 as ColorSlot<B, D>>::spec_color_formats().len() == 1);
                    let rest = choose|rest: Seq<B::TextureRepr>|
                        rest.len() < <P8 as ColorSlot<B, D>>::spec_color_formats().len()
                            && B::spec_color_attachments(framebuffer) == mid + #[trigger] spec_indexed(
                            index,
                            rest,
                        );
                    lemma_failed_slot(
                        before,
                        attachment_index,
                        reprs,
                        mid,
                        index,
                        rest,
                        B::spec_color_attachments(framebuffer),
                    );
                    assert(reprs.len() < 6);
                }
                return Err(e);
            },
        };
        proof {
            assert(<P8 as ColorSlot<B, D>>::spec_textures(&t2) =~= seq![t2.spec_repr()]);
            assert(mid + spec_indexed(index, seq![t2.spec_repr()]) =~= mid.push((index, t2.spec_repr())));
            lemma_indexed_push(before, attachment_index, reprs, t2.spec_repr());
            reprs = reprs.push(t2.spec_repr());
            assert(B::spec_color_attachments(framebuffer) == before + spec_indexed(attachment_index, reprs));
        }
        index = index + 1;
        let ghost mid = B::spec_color_attachments(framebuffer);
        let t3 = match <P9 as ColorSlot<B, D>>::reify_color_textures(
            backend,
            size,
            mipmaps,
            sampler,
            framebuffer,
            index,
        ) {
            Ok(t) => t,
            Err(e) => {
                proof {
                    assert(<P9 as ColorSlot<B, D>>::spec_color_formats().len() == 1);
                    let rest = choose|rest: Seq<B::TextureRepr>|
                        rest.len() < <P9 as ColorSlot<B, D>>::spec_color_formats().len()
                            && B::spec_color_attachments(framebuffer) == mid + #[trigger] spec_indexed(
                            index,
                            rest,
                        );
                    lemma_failed_slot(
                        before,
                        attachment_index,
                        reprs,
                        mid,
                        index,
                        rest,
                        B::spec_color_attachments(framebuffer),
                    );
                    assert(reprs.len() < 6);
                }
                return Err(e);
            },
        };
        proof {
            assert(<P9 as ColorSlot<B, D>>::spec_textures(&t3) =~= seq![t3.spec_repr()]);
            assert(mid + spec_indexed(index, seq![t3.spec_repr()]) =~= mid.push((index, t3.spec_repr())));
            lemma_indexed_push(before, attachment_index, reprs, t3.spec_repr());
            reprs = reprs.push(t3.spec_repr());
            assert(B::spec_color_attachments(framebuffer) == before + spec_indexed(attachment_index, reprs));
        }
        index = index + 1;
        let ghost mid = B::spec_color_attachments(framebuffer);
        let t4 = match <P10 as ColorSlot<B, D>>::reify_color_textures(
            backend,
            size,
            mipmaps,
            sampler,
            framebuffer,
            index,
        ) {
            Ok(t) => t,
            Err(e) => {
                proof {
                    assert(<P10 as ColorSlot<B, D>>::spec_color_formats().len() == 1);
                    let rest = choose|rest: Seq<B::TextureRepr>|
                        rest.len() < <P10 as ColorSlot<B, D>>::spec_color_formats().len()
                            && B::spec_color_attachments(framebuffer) == mid + #[trigger] spec_indexed(
                            index,
                            rest,
                        );
                    lemma_failed_slot(
                        before,
                        attachment_index,
                        reprs,
                        mid,
                        index,
                        rest,
                        B::spec_color_attachments(framebuffer),
                    );
                    assert(reprs.len() < 6);
                }
                return Err(e);
            },
        };
        proof {
            assert(<P10 as ColorSlot<B, D>>::spec_textures(&t4) =~= seq![t4.spec_repr()]);
            assert(mid + spec_indexed(index, seq![t4.spec_repr()]) =~= mid.push((index, t4.spec_repr())));
            lemma_indexed_push(before, attachment_index, reprs, t4.spec_repr());
            reprs = reprs.push(t4.spec_repr());
            assert(B::spec_color_attachments(framebuffer) == before + spec_indexed(attachment_index, reprs));
        }
        index = index + 1;
        let ghost mid = B::spec_color_attachments(framebuffer);
        let t5 = match <P11 as ColorSlot<B, D>>::reify_color_textures(
            backend,
            size,
            mipmaps,
            sampler,
            framebuffer,
            index,
        ) {
            Ok(t) => t,
            Err(e) => {
                proof {
                    assert(<P11 as ColorSlot<B, D>>::spec_color_formats().len() == 1);
                    let rest = choose|rest: Seq<B::TextureRepr>|
                        rest.len() < <P11 as ColorSlot<B, D>>::spec_color_formats().len()
                            && B::spec_color_attachments(framebuffer) == mid + #[trigger] spec_indexed(
                            index,
                            rest,
                        );
                    lemma_failed_slot(
                        before,
                        attachment_index,
                        reprs,
                        mid,
                        index,
                        rest,
                        B::spec_color_attachments(framebuffer),
                    );
                    assert(reprs.len() < 6);
                }
                return Err(e);
            },
        };
        proof {
            assert(<P11 as ColorSlot<B, D>>::spec_textures(&t5) =~= seq![t5.spec_repr()]);
            assert(mid + spec_indexed(index, seq![t5.spec_repr()]) =~= mid.push((index, t5.spec_repr())));
            lemma_indexed_push(before, attachment_index, reprs, t5.spec_repr());
            reprs = reprs.push(t5.spec_repr());
            assert(B::spec_color_attachments(framebuffer) == before + spec_indexed(attachment_index, reprs));
        }
        let textures = (t0, t1, t2, t3, t4, t5);
        proof {
            assert(reprs =~= seq![textures.0.spec_repr(), textures.1.spec_repr(), textures.2.spec_repr(), textures.3.spec_repr(), textures.4.spec_repr(), textures.5.spec_repr()]);
        }
        Ok(textures)
    }
}

impl<B, D, P5, P6, P7, P8, P9, P10, P11> ColorSlot<B, D> for (P5, P6, P7, P8, P9, P10, P11) where
    B: ?Sized + Framebuffer<D> + TextureBackend<D, P5> + TextureBackend<D, P6> + TextureBackend<D, P7> + TextureBackend<D, P8> + TextureBackend<D, P9> + TextureBackend<D, P10> + TextureBackend<D, P11>,
    D: Dimensionable,
    D::Size: Copy,
    P5: ColorPixel + RenderablePixel,
    P6: ColorPixel + RenderablePixel,
    P7: ColorPixel + RenderablePixel,
    P8: ColorPixel + RenderablePixel,
    P9: ColorPixel + RenderablePixel,
    P10: ColorPixel + RenderablePixel,
    P11: ColorPixel + RenderablePixel,
 {
    type ColorTextures = (Texture<B, D, P5>, Texture<B, D, P6>, Texture<B, D, P7>, Texture<B, D, P8>, Texture<B, D, P9>, Texture<B, D, P10>, Texture<B, D, P11>);

    open spec fn spec_color_formats() -> Seq<PixelFormat> {
        seq![P5::spec_pixel_format(), P6::spec_pixel_format(), P7::spec_pixel_format(), P8::spec_pixel_format(), P9::spec_pixel_format(), P10::spec_pixel_format(), P11::spec_pixel_format()]
    }

    open spec fn spec_textures(textures: &(Texture<B, D, P5>, Texture<B, D, P6>, Texture<B, D, P7>, Texture<B, D, P8>, Texture<B, D, P9>, Texture<B, D, P10>, Texture<B, D, P11>)) -> Seq<B::TextureRepr> {
        seq![textures.0.spec_repr(), textures.1.spec_repr(), textures.2.spec_repr(), textures.3.spec_repr(), textures.4.spec_repr(), textures.5.spec_repr(), textures.6.spec_repr()]
    }

    open spec fn spec_textures_made(textures: &(Texture<B, D, P5>, Texture<B, D, P6>, Texture<B, D, P7>, Texture<B, D, P8>, Texture<B, D, P9>, Texture<B, D, P10>, Texture<B, D, P11>), size: D::Size, mipmaps: usize, sampler: Sampler) -> bool {
        &&& <P5 as ColorSlot<B, D>>::spec_textures_made(&textures.0, size, mipmaps, sampler)
        &&& <P6 as ColorSlot<B, D>>::spec_textures_made(&textures.1, size, mipmaps, sampler)
        &&& <P7 as ColorSlot<B, D>>::spec_textures_made(&textures.2, size, mipmaps, sampler)
        &&& <P8 as ColorSlot<B, D>>::spec_textures_made(&textures.3, size, mipmaps, sampler)
        &&& <P9 as ColorSlot<B, D>>::spec_textures_made(&textures.4, size, mipmaps, sampler)
        &&& <P10 as ColorSlot<B, D>>::spec_textures_made(&textures.5, size, mipmaps, sampler)
        &&& <P11 as ColorSlot<B, D>>::spec_textures_made(&textures.6, size, mipmaps, sampler)
    }

    fn color_formats() -> (r: Vec<PixelFormat>) {
        let mut v = Vec::new();
        v.push(P5::pixel_format());
        v.push(P6::pixel_format());
        v.push(P7::pixel_format());
        v.push(P8::pixel_format());
        v.push(P9::pixel_format());
        v.push(P10::pixel_format());
        v.push(P11::pixel_format());
        proof {
            assert(v@ =~= seq![P5::spec_pixel_format(), P6::spec_pixel_format(), P7::spec_pixel_format(), P8::spec_pixel_format(), P9::spec_pixel_format(), P10::spec_pixel_format(), P11::spec_pixel_format()]);
        }
        v
    }

    #[verifier::rlimit(50)]
    fn reify_color_textures(
        backend: &mut B,
        size: D::Size,
        mipmaps: usize,
        sampler: &Sampler,
        framebuffer: &mut B::FramebufferRepr,
        attachment_index: usize,
    ) -> (r: Result<(Texture<B, D, P5>, Texture<B, D, P6>, Texture<B, D, P7>, Texture<B, D, P8>, Texture<B, D, P9>, Texture<B, D, P10>, Texture<B, D, P11>), FramebufferError>) {
        let ghost before = B::spec_color_attachments(framebuffer);
        let ghost mut reprs = Seq::<B::TextureRepr>::empty();
        proof {
            assert(before + spec_indexed(attachment_index, reprs) =~= before);
        }
        let mut index: usize = attachment_index;
        let ghost mid = B::spec_color_attachments(framebuffer);
        let t0 = match <P5 as ColorSlot<B, D>>::reify_color_textures(
            backend,
            size,
            mipmaps,
            sampler,
            framebuffer,
            index,
        ) {
            Ok(t) => t,
            Err(e) => {
                proof {
                    assert(<P5 as ColorSlot<B, D>>::spec_color_formats().len() == 1);
                    let rest = choose|rest: Seq<B::TextureRepr>|
                        rest.len() < <P5 as ColorSlot<B, D>>::spec_color_formats().len()
                            && B::spec_color_attachments(framebuffer) == mid + #[trigger] spec_indexed(
                            index,
                            rest,
                        );
                    lemma_failed_slot(
                        before,
                        attachment_index,
                        reprs,
                        mid,
                        index,
                        rest,
                        B::spec_color_attachments(framebuffer),
                    );
                    assert(reprs.len() < 7);
                }
                return Err(e);
            },
        };
        proof {
            assert(<P5 as ColorSlot<B, D>>::spec_textures(&t0) =~= seq![t0.spec_repr()]);
            assert(mid + spec_indexed(index, seq![t0.spec_repr()]) =~= mid.push((index, t0.spec_repr())));
            lemma_indexed_push(before, attachment_index, reprs, t0.spec_repr());
            reprs = reprs.push(t0.spec_repr());
            assert(B::spec_color_attachments(framebuffer) == before + spec_indexed(attachment_index, reprs));
        }
        index = index + 1;
        let ghost mid = B::spec_color_attachments(framebuffer);
        let t1 = match <P6 as ColorSlot<B, D>>::reify_color_textures(
            backend,
            size,
            mipmaps,
            sampler,
            framebuffer,
            index,
        ) {
            Ok(t) => t,
            Err(e) => {
                proof {
                    assert(<P6 as ColorSlot<B, D>>::spec_color_formats().len() == 1);
                    let rest = choose|rest: Seq<B::TextureRepr>|
                        rest.len() < <P6 as ColorSlot<B, D>>::spec_color_formats().len()
                            && B::spec_color_attachments(framebuffer) == mid + #[trigger] spec_indexed(
                            index,
                            rest,
                        );
                    lemma_failed_slot(
                        before,
                        attachment_index,
                        reprs,
                        mid,
                        index,
                        rest,
                        B::spec_color_attachments(framebuffer),
                    );
                    assert(reprs.len() < 7);
                }
                return Err(e);
            },
        };
        proof {
            assert(<P6 as ColorSlot<B, D>>::spec_textures(&t1) =~= seq![t1.spec_repr()]);
            assert(mid + spec_indexed(index, seq![t1.spec_repr()]) =~= mid.push((index, t1.spec_repr())));
            lemma_indexed_push(before, attachment_index, reprs, t1.spec_repr());
            reprs = reprs.push(t1.spec_repr());
            assert(B::spec_color_attachments(framebuffer) == before + spec_indexed(attachment_index, reprs));
        }
        index = index + 1;
        let ghost mid = B::spec_color_attachments(framebuffer);
        let t2 = match <P7 as ColorSlot<B, D>>::reify_color_textures(
            backend,
            size,
            mipmaps,
            sampler,
            framebuffer,
            index,
        ) {
            Ok(t) => t,
            Err(e) => {
                proof {
                    assert(<P7 as ColorSlot<B, D>>::spec_color_formats().len() == 1);
                    let rest = choose|rest: Seq<B::TextureRepr>|
                        rest.len() < <P7 as ColorSlot<B, D>>::spec_color_formats().len()
                            && B::spec_color_attachments(framebuffer) == mid + #[trigger] spec_indexed(
                            index,
                            rest,
                        );
                    lemma_failed_slot(
                        before,
                        attachment_index,
                        reprs,
                        mid,
                        index,
                        rest,
                        B::spec_color_attachments(framebuffer),
                    );
                    assert(reprs.len() < 7);
                }
                return Err(e);
            },
        };
        proof {
            assert(<P7 as ColorSlot<B, D>>::spec_textures(&t2) =~= seq![t2.spec_repr()]);
            assert(mid + spec_indexed(index, seq![t2.spec_repr()]) =~= mid.push((index, t2.spec_repr())));
            lemma_indexed_push(before, attachment_index, reprs, t2.spec_repr());
            reprs = reprs.push(t2.spec_repr());
            assert(B::spec_color_attachments(framebuffer) == before + spec_indexed(attachment_index, reprs));
        }
        index = index + 1;
        let ghost mid = B::spec_color_attachments(framebuffer);
        let t3 = match <P8 as ColorSlot<B, D>>::reify_color_textures(
            backend,
            size,
            mipmaps,
            sampler,
            framebuffer,
            index,
        ) {
            Ok(t) => t,
            Err(e) => {
                proof {
                    assert(<P8 as ColorSlot<B, D>>::spec_color_formats().len() == 1);
                    let rest = choose|rest: Seq<B::TextureRepr>|
                        rest.len() < <P8 as ColorSlot<B, D>>::spec_color_formats().len()
                            && B::spec_color_attachments(framebuffer) == mid + #[trigger] spec_indexed(
                            index,
                            rest,
                        );
                    lemma_failed_slot(
                        before,
                        attachment_index,
                        reprs,
                        mid,
                        index,
                        rest,
                        B::spec_color_attachments(framebuffer),
                    );
                    assert(reprs.len() < 7);
                }
                return Err(e);
            },
        };
        proof {
            assert(<P8 as ColorSlot<B, D>>::spec_textures(&t3) =~= seq![t3.spec_repr()]);
            assert(mid + spec_indexed(index, seq![t3.spec_repr()]) =~= mid.push((index, t3.spec_repr())));
            lemma_indexed_push(before, attachment_index, reprs, t3.spec_repr());
            reprs = reprs.push(t3.spec_repr());
            assert(B::spec_color_attachments(framebuffer) == before + spec_indexed(attachment_index, reprs));
        }
        index = index + 1;
        let ghost mid = B::spec_color_attachments(framebuffer);
        let t4 = match <P9 as ColorSlot<B, D>>::reify_color_textures(
            backend,
            size,
            mipmaps,
            sampler,
            framebuffer,
            index,
        ) {
            Ok(t) => t,
            Err(e) => {
                proof {
                    assert(<P9 as ColorSlot<B, D>>::spec_color_formats().len() == 1);
                    let rest = choose|rest: Seq<B::TextureRepr>|
                        rest.len() < <P9 as ColorSlot<B, D>>::spec_color_formats().len()
                            && B::spec_color_attachments(framebuffer) == mid + #[trigger] spec_indexed(
                            index,
                            rest,
                        );
                    lemma_failed_slot(
                        before,
                        attachment_index,
                        reprs,
                        mid,
                        index,
                        rest,
                        B::spec_color_attachments(framebuffer),
                    );
                    assert(reprs.len() < 7);
                }
                return Err(e);
            },
        };
        proof {
            assert(<P9 as ColorSlot<B, D>>::spec_textures(&t4) =~= seq![t4.spec_repr()]);
            assert(mid + spec_indexed(index, seq![t4.spec_repr()]) =~= mid.push((index, t4.spec_repr())));
            lemma_indexed_push(before, attachment_index, reprs, t4.spec_repr());
            reprs = reprs.push(t4.spec_repr());
            assert(B::spec_color_attachments(framebuffer) == before + spec_indexed(attachment_index, reprs));
        }
        index = index + 1;
        let ghost mid = B::spec_color_attachments(framebuffer);
        let t5 = match <P10 as ColorSlot<B, D>>::reify_color_textures(
            backend,
            size,
            mipmaps,
            sampler,
            framebuffer,
            index,
        ) {
            Ok(t) => t,
            Err(e) => {
                proof {
                    assert(<P10 as ColorSlot<B, D>>::spec_color_formats().len() == 1);
                    let rest = choose|rest: Seq<B::TextureRepr>|
                        rest.len() < <P10 as ColorSlot<B, D>>::spec_color_formats().len()
                            && B::spec_color_attachments(framebuffer) == mid + #[trigger] spec_indexed(
                            index,
                            rest,
                        );
                    lemma_failed_slot(
                        before,
                        attachment_index,
                        reprs,
                        mid,
                        index,
                        rest,
                        B::spec_color_attachments(framebuffer),
                    );
                    assert(reprs.len() < 7);
                }
                return Err(e);
            },
        };
        proof {
            assert(<P10 as ColorSlot<B, D>>::spec_textures(&t5) =~= seq![t5.spec_repr()]);
            assert(mid + spec_indexed(index, seq![t5.spec_repr()]) =~= mid.push((index, t5.spec_repr())));
            lemma_indexed_push(before, attachment_index, reprs, t5.spec_repr());
            reprs = reprs.push(t5.spec_repr());
            assert(B::spec_color_attachments(framebuffer) == before + spec_indexed(attachment_index, reprs));
        }
        index = index + 1;
        let ghost mid = B::spec_color_attachments(framebuffer);
        let t6 = match <P11 as ColorSlot<B, D>>::reify_color_textures(
            backend,
            size,
            mipmaps,
            sampler,
            framebuffer,
            index,
        ) {
            Ok(t) => t,
            Err(e) => {
                proof {
                    assert(<P11 as ColorSlot<B, D>>::spec_color_formats().len() == 1);
                    let rest = choose|rest: Seq<B::TextureRepr>|
                        rest.len() < <P11 as ColorSlot<B, D>>::spec_color_formats().len()
                            && B::spec_color_attachments(framebuffer) == mid + #[trigger] spec_indexed(
                            index,
                            rest,
                        );
                    lemma_failed_slot(
                        before,
                        attachment_index,
                        reprs,
                        mid,
                        index,
                        rest,
                        B::spec_color_attachments(framebuffer),
                    );
                    assert(reprs.len() < 7);
                }
                return Err(e);
            },
        };
        proof {
            assert(<P11 as ColorSlot<B, D>>::spec_textures(&t6) =~= seq![t6.spec_repr()]);
            assert(mid + spec_indexed(index, seq![t6.spec_repr()]) =~= mid.push((index, t6.spec_repr())));
            lemma_indexed_push(before, attachment_index, reprs, t6.spec_repr());
            reprs = reprs.push(t6.spec_repr());
            assert(B::spec_color_attachments(framebuffer) == before + spec_indexed(attachment_index, reprs));
        }
        let textures = (t0, t1, t2, t3, t4, t5, t6);
        proof {
            assert(reprs =~= seq![textures.0.spec_repr(), textures.1.spec_repr(), textures.2.spec_repr(), textures.3.spec_repr(), textures.4.spec_repr(), textures.5.spec_repr(), textures.6.spec_repr()]);
        }
        Ok(textures)
    }
}

impl<B, D, P4, P5, P6, P7, P8, P9, P10, P11> ColorSlot<B, D> for (P4, P5, P6, P7, P8, P9, P10, P11) where
    B: ?Sized + Framebuffer<D> + TextureBackend<D, P4> + TextureBackend<D, P5> + TextureBackend<D, P6> + TextureBackend<D, P7> + TextureBackend<D, P8> + TextureBackend<D, P9> + TextureBackend<D, P10> + TextureBackend<D, P11>,
    D: Dimensionable,
    D::Size: Copy,
    P4: ColorPixel + RenderablePixel,
    P5: ColorPixel + RenderablePixel,
    P6: ColorPixel + RenderablePixel,
    P7: ColorPixel + RenderablePixel,
    P8: ColorPixel + RenderablePixel,
    P9: ColorPixel + RenderablePixel,
    P10: ColorPixel + RenderablePixel,
    P11: ColorPixel + RenderablePixel,
 {
    type ColorTextures = (Texture<B, D, P4>, Texture<B, D, P5>, Texture<B, D, P6>, Texture<B, D, P7>, Texture<B, D, P8>, Texture<B, D, P9>, Texture<B, D, P10>, Texture<B, D, P11>);

    open spec fn spec_color_formats() -> Seq<PixelFormat> {
        seq![P4::spec_pixel_format(), P5::spec_pixel_format(), P6::spec_pixel_format(), P7::spec_pixel_format(), P8::spec_pixel_format(), P9::spec_pixel_format(), P10::spec_pixel_format(), P11::spec_pixel_format()]
    }

    open spec fn spec_textures(textures: &(Texture<B, D, P4>, Texture<B, D, P5>, Texture<B, D, P6>, Texture<B, D, P7>, Texture<B, D, P8>, Texture<B, D, P9>, Texture<B, D, P10>, Texture<B, D, P11>)) -> Seq<B::TextureRepr> {
        seq![textures.0.spec_repr(), textures.1.spec_repr(), textures.2.spec_repr(), textures.3.spec_repr(), textures.4.spec_repr(), textures.5.spec_repr(), textures.6.spec_repr(), textures.7.spec_repr()]
    }

    open spec fn spec_textures_made(textures: &(Texture<B, D, P4>, Texture<B, D, P5>, Texture<B, D, P6>, Texture<B, D, P7>, Texture<B, D, P8>, Texture<B, D, P9>, Texture<B, D, P10>, Texture<B, D, P11>), size: D::Size, mipmaps: usize, sampler: Sampler) -> bool {
        &&& <P4 as ColorSlot<B, D>>::spec_textures_made(&textures.0, size, mipmaps, sampler)
        &&& <P5 as ColorSlot<B, D>>::spec_textures_made(&textures.1, size, mipmaps, sampler)
        &&& <P6 as ColorSlot<B, D>>::spec_textures_made(&textures.2, size, mipmaps, sampler)
        &&& <P7 as ColorSlot<B, D>>::spec_textures_made(&textures.3, size, mipmaps, sampler)
        &&& <P8 as ColorSlot<B, D>>::spec_textures_made(&textures.4, size, mipmaps, sampler)
        &&& <P9 as ColorSlot<B, D>>::spec_textures_made(&textures.5, size, mipmaps, sampler)
        &&& <P10 as ColorSlot<B, D>>::spec_textures_made(&textures.6, size, mipmaps, sampler)
        &&& <P11 as ColorSlot<B, D>>::spec_textures_made(&textures.7, size, mipmaps, sampler)
    }

    fn color_formats() -> (r: Vec<PixelFormat>) {
        let mut v = Vec::new();
        v.push(P4::pixel_format());
        v.push(P5::pixel_format());
        v.push(P6::pixel_format());
        v.push(P7::pixel_format());
        v.push(P8::pixel_format());
        v.push(P9::pixel_format());
        v.push(P10::pixel_format());
        v.push(P11::pixel_format());
        proof {
            assert(v@ =~= seq![P4::spec_pixel_format(), P5::spec_pixel_format(), P6::spec_pixel_format(), P7::spec_pixel_format(), P8::spec_pixel_format(), P9::spec_pixel_format(), P10::spec_pixel_format(), P11::spec_pixel_format()]);
        }
        v
    }

    #[verifier::rlimit(50)]
    fn reify_color_textures(
        backend: &mut B,
        size: D::Size,
        mipmaps: usize,
        sampler: &Sampler,
        framebuffer: &mut B::FramebufferRepr,
        attachment_index: usize,
    ) -> (r: Result<(Texture<B, D, P4>, Texture<B, D, P5>, Texture<B, D, P6>, Texture<B, D, P7>, Texture<B, D, P8>, Texture<B, D, P9>, Texture<B, D, P10>, Texture<B, D, P11>), FramebufferError>) {
        let ghost before = B::spec_color_attachments(framebuffer);
        let ghost mut reprs = Seq::<B::TextureRepr>::empty();
        proof {
            assert(before + spec_indexed(attachment_index, reprs) =~= before);
        }
        let mut index: usize = attachment_index;
        let ghost mid = B::spec_color_attachments(framebuffer);
        let t0 = match <P4 as ColorSlot<B, D>>::reify_color_textures(
            backend,
            size,
            mipmaps,
            sampler,
            framebuffer,
            index,
        ) {
            Ok(t) => t,
            Err(e) => {
                proof {
                    assert(<P4 as ColorSlot<B, D>>::spec_color_formats().len() == 1);
                    let rest = choose|rest: Seq<B::TextureRepr>|
                        rest.len() < <P4 as ColorSlot<B, D>>::spec_color_formats().len()
                            && B::spec_color_attachments(framebuffer) == mid + #[trigger] spec_indexed(
                            index,
                            rest,
                        );
                    lemma_failed_slot(
                        before,
                        attachment_index,
                        reprs,
                        mid,
                        index,
                        rest,
                        B::spec_color_attachments(framebuffer),
                    );
                    assert(reprs.len() < 8);
                }
                return Err(e);
            },
        };
        proof {
            assert(<P4 as ColorSlot<B, D>>::spec_textures(&t0) =~= seq![t0.spec_repr()]);
            assert(mid + spec_indexed(index, seq![t0.spec_repr()]) =~= mid.push((index, t0.spec_repr())));
            lemma_indexed_push(before, attachment_index, reprs, t0.spec_repr());
            reprs = reprs.push(t0.spec_repr());
            assert(B::spec_color_attachments(framebuffer) == before + spec_indexed(attachment_index, reprs));
        }
        index = index + 1;
        let ghost mid = B::spec_color_attachments(framebuffer);
        let t1 = match <P5 as ColorSlot<B, D>>::reify_color_textures(
            backend,
            size,
            mipmaps,
            sampler,
            framebuffer,
            index,
        ) {
            Ok(t) => t,
            Err(e) => {
                proof {
                    assert(<P5 as ColorSlot<B, D>>::spec_color_formats().len() == 1);
                    let rest = choose|rest: Seq<B::TextureRepr>|
                        rest.len() < <P5 as ColorSlot<B, D>>::spec_color_formats().len()
                            && B::spec_color_attachments(framebuffer) == mid + #[trigger] spec_indexed(
                            index,
                            rest,
                        );
                    lemma_failed_slot(
                        before,
                        attachment_index,
                        reprs,
                        mid,
                        index,
                        rest,
                        B::spec_color_attachments(framebuffer),
                    );
                    assert(reprs.len() < 8);
                }
                return Err(e);
            },
        };
        proof {
            assert(<P5 as ColorSlot<B, D>>::spec_textures(&t1) =~= seq![t1.spec_repr()]);
            assert(mid + spec_indexed(index, seq![t1.spec_repr()]) =~= mid.push((index, t1.spec_repr())));
            lemma_indexed_push(before, attachment_index, reprs, t1.spec_repr());
            reprs = reprs.push(t1.spec_repr());
            assert(B::spec_color_attachments(framebuffer) == before + spec_indexed(attachment_index, reprs));
        }
        index = index + 1;
        let ghost mid = B::spec_color_attachments(framebuffer);
        let t2 = match <P6 as ColorSlot<B, D>>::reify_color_textures(
            backend,
            size,
            mipmaps,
            sampler,
            framebuffer,
            index,
        ) {
            Ok(t) => t,
            Err(e) => {
                proof {
                    assert(<P6 as ColorSlot<B, D>>::spec_color_formats().len() == 1);
                    let rest = choose|rest: Seq<B::TextureRepr>|
                        rest.len() < <P6 as ColorSlot<B, D>>::spec_color_formats().len()
                            && B::spec_color_attachments(framebuffer) == mid + #[trigger] spec_indexed(
                            index,
                            rest,
                        );
                    lemma_failed_slot(
                        before,
                        attachment_index,
                        reprs,
                        mid,
                        index,
                        rest,
                        B::spec_color_attachments(framebuffer),
                    );
                    assert(reprs.len() < 8);
                }
                return Err(e);
            },
        };
        proof {
            assert(<P6 as ColorSlot<B, D>>::spec_textures(&t2) =~= seq![t2.spec_repr()]);
            assert(mid + spec_indexed(index, seq![t2.spec_repr()]) =~= mid.push((index, t2.spec_repr())));
            lemma_indexed_push(before, attachment_index, reprs, t2.spec_repr());
            reprs = reprs.push(t2.spec_repr());
            assert(B::spec_color_attachments(framebuffer) == before + spec_indexed(attachment_index, reprs));
        }
        index = index + 1;
        let ghost mid = B::spec_color_attachments(framebuffer);
        let t3 = match <P7 as ColorSlot<B, D>>::reify_color_textures(
            backend,
            size,
            mipmaps,
            sampler,
            framebuffer,
            index,
        ) {
            Ok(t) => t,
            Err(e) => {
                proof {
                    assert(<P7 as ColorSlot<B, D>>::spec_color_formats().len() == 1);
                    let rest = choose|rest: Seq<B::TextureRepr>|
                        rest.len() < <P7 as ColorSlot<B, D>>::spec_color_formats().len()
                            && B::spec_color_attachments(framebuffer) == mid + #[trigger] spec_indexed(
                            index,
                            rest,
                        );
                    lemma_failed_slot(
                        before,
                        attachment_index,
                        reprs,
                        mid,
                        index,
                        rest,
                        B::spec_color_attachments(framebuffer),
                    );
                    assert(reprs.len() < 8);
                }
                return Err(e);
            },
        };
        proof {
            assert(<P7 as ColorSlot<B, D>>::spec_textures(&t3) =~= seq![t3.spec_repr()]);
            assert(mid + spec_indexed(index, seq![t3.spec_repr()]) =~= mid.push((index, t3.spec_repr())));
            lemma_indexed_push(before, attachment_index, reprs, t3.spec_repr());
            reprs = reprs.push(t3.spec_repr());
            assert(B::spec_color_attachments(framebuffer) == before + spec_indexed(attachment_index, reprs));
        }
        index = index + 1;
        let ghost mid = B::spec_color_attachments(framebuffer);
        let t4 = match <P8 as ColorSlot<B, D>>::reify_color_textures(
            backend,
            size,
            mipmaps,
            sampler,
            framebuffer,
            index,
        ) {
            Ok(t) => t,
            Err(e) => {
                proof {
                    assert(<P8 as ColorSlot<B, D>>::spec_color_formats().len() == 1);
                    let rest = choose|rest: Seq<B::TextureRepr>|
                        rest.len() < <P8 as ColorSlot<B, D>>::spec_color_formats().len()
                            && B::spec_color_attachments(framebuffer) == mid + #[trigger] spec_indexed(
                            index,
                            rest,
                        );
                    lemma_failed_slot(
                        before,
                        attachment_index,
                        reprs,
                        mid,
                        index,
                        rest,
                        B::spec_color_attachments(framebuffer),
                    );
                    assert(reprs.len() < 8);
                }
                return Err(e);
            },
        };
        proof {
            assert(<P8 as ColorSlot<B, D>>::spec_textures(&t4) =~= seq![t4.spec_repr()]);
            assert(mid + spec_indexed(index, seq![t4.spec_repr()]) =~= mid.push((index, t4.spec_repr())));
            lemma_indexed_push(before, attachment_index, reprs, t4.spec_repr());
            reprs = reprs.push(t4.spec_repr());
            assert(B::spec_color_attachments(framebuffer) == before + spec_indexed(attachment_index, reprs));
        }
        index = index + 1;
        let ghost mid = B::spec_color_attachments(framebuffer);
        let t5 = match <P9 as ColorSlot<B, D>>::reify_color_textures(
            backend,
            size,
            mipmaps,
            sampler,
            framebuffer,
            index,
        ) {
            Ok(t) => t,
            Err(e) => {
                proof {
                    assert(<P9 as ColorSlot<B, D>>::spec_color_formats().len() == 1);
                    let rest = choose|rest: Seq<B::TextureRepr>|
                        rest.len() < <P9 as ColorSlot<B, D>>::spec_color_formats().len()
                            && B::spec_color_attachments(framebuffer) == mid + #[trigger] spec_indexed(
                            index,
                            rest,
                        );
                    lemma_failed_slot(
                        before,
                        attachment_index,
                        reprs,
                        mid,
                        index,
                        rest,
                        B::spec_color_attachments(framebuffer),
                    );
                    assert(reprs.len() < 8);
                }
                return Err(e);
            },
        };
        proof {
            assert(<P9 as ColorSlot<B, D>>::spec_textures(&t5) =~= seq![t5.spec_repr()]);
            assert(mid + spec_indexed(index, seq![t5.spec_repr()]) =~= mid.push((index, t5.spec_repr())));
            lemma_indexed_push(before, attachment_index, reprs, t5.spec_repr());
            reprs = reprs.push(t5.spec_repr());
            assert(B::spec_color_attachments(framebuffer) == before + spec_indexed(attachment_index, reprs));
        }
        index = index + 1;
        let ghost mid = B::spec_color_attachments(framebuffer);
        let t6 = match <P10 as ColorSlot<B, D>>::reify_color_textures(
            backend,
            size,
            mipmaps,
            sampler,
            framebuffer,
            index,
        ) {
            Ok(t) => t,
            Err(e) => {
                proof {
                    assert(<P10 as ColorSlot<B, D>>::spec_color_formats().len() == 1);
                    let rest = choose|rest: Seq<B::TextureRepr>|
                        rest.len() < <P10 as ColorSlot<B, D>>::spec_color_formats().len()
                            && B::spec_color_attachments(framebuffer) == mid + #[trigger] spec_indexed(
                            index,
                            rest,
                        );
                    lemma_failed_slot(
                        before,
                        attachment_index,
                        reprs,
                        mid,
                        index,
                        rest,
                        B::spec_color_attachments(framebuffer),
                    );
                    assert(reprs.len() < 8);
                }
                return Err(e);
            },
        };
        proof {
            assert(<P10 as ColorSlot<B, D>>::spec_textures(&t6) =~= seq![t6.spec_repr()]);
            assert(mid + spec_indexed(index, seq![t6.spec_repr()]) =~= mid.push((index, t6.spec_repr())));
            lemma_indexed_push(before, attachment_index, reprs, t6.spec_repr());
            reprs = reprs.push(t6.spec_repr());
            assert(B::spec_color_attachments(framebuffer) == before + spec_indexed(attachment_index, reprs));
        }
        index = index + 1;
        let ghost mid = B::spec_color_attachments(framebuffer);
        let t7 = match <P11 as ColorSlot<B, D>>::reify_color_textures(
            backend,
            size,
            mipmaps,
            sampler,
            framebuffer,
            index,
        ) {
            Ok(t) => t,
            Err(e) => {
                proof {
                    assert(<P11 as ColorSlot<B, D>>::spec_color_formats().len() == 1);
                    let rest = choose|rest: Seq<B::TextureRepr>|
                        rest.len() < <P11 as ColorSlot<B, D>>::spec_color_formats().len()
                            && B::spec_color_attachments(framebuffer) == mid + #[trigger] spec_indexed(
                            index,
                            rest,
                        );
                    lemma_failed_slot(
                        before,
                        attachment_index,
                        reprs,
                        mid,
                        index,
                        rest,
                        B::spec_color_attachments(framebuffer),
                    );
                    assert(reprs.len() < 8);
                }
                return Err(e);
            },
        };
        proof {
            assert(<P11 as ColorSlot<B, D>>::spec_textures(&t7) =~= seq![t7.spec_repr()]);
            assert(mid + spec_indexed(index, seq![t7.spec_repr()]) =~= mid.push((index, t7.spec_repr())));
            lemma_indexed_push(before, attachment_index, reprs, t7.spec_repr());
            reprs = reprs.push(t7.spec_repr());
            assert(B::spec_color_attachments(framebuffer) == before + spec_indexed(attachment_index, reprs));
        }
        let textures = (t0, t1, t2, t3, t4, t5, t6, t7);
        proof {
            assert(reprs =~= seq![textures.0.spec_repr(), textures.1.spec_repr(), textures.2.spec_repr(), textures.3.spec_repr(), textures.4.spec_repr(), textures.5.spec_repr(), textures.6.spec_repr(), textures.7.spec_repr()]);
        }
        Ok(textures)
    }
}

impl<B, D, P3, P4, P5, P6, P7, P8, P9, P10, P11> ColorSlot<B, D> for (P3, P4, P5, P6, P7, P8, P9, P10, P11) where
    B: ?Sized + Framebuffer<D> + TextureBackend<D, P3> + TextureBackend<D, P4> + TextureBackend<D, P5> + TextureBackend<D, P6> + TextureBackend<D, P7> + TextureBackend<D, P8> + TextureBackend<D, P9> + TextureBackend<D, P10> + TextureBackend<D, P11>,
    D: Dimensionable,
    D::Size: Copy,
    P3: ColorPixel + RenderablePixel,
    P4: ColorPixel + RenderablePixel,
    P5: ColorPixel + RenderablePixel,
    P6: ColorPixel + RenderablePixel,
    P7: ColorPixel + RenderablePixel,
    P8: ColorPixel + RenderablePixel,
    P9: ColorPixel + RenderablePixel,
    P10: ColorPixel + RenderablePixel,
    P11: ColorPixel + RenderablePixel,
 {
    type ColorTextures = (Texture<B, D, P3>, Texture<B, D, P4>, Texture<B, D, P5>, Texture<B, D, P6>, Texture<B, D, P7>, Texture<B, D, P8>, Texture<B, D, P9>, Texture<B, D, P10>, Texture<B, D, P11>);

    open spec fn spec_color_formats() -> Seq<PixelFormat> {
        seq![P3::spec_pixel_format(), P4::spec_pixel_format(), P5::spec_pixel_format(), P6::spec_pixel_format(), P7::spec_pixel_format(), P8::spec_pixel_format(), P9::spec_pixel_format(), P10::spec_pixel_format(), P11::spec_pixel_format()]
    }

    open spec fn spec_textures(textures: &(Texture<B, D, P3>, Texture<B, D, P4>, Texture<B, D, P5>, Texture<B, D, P6>, Texture<B, D, P7>, Texture<B, D, P8>, Texture<B, D, P9>, Texture<B, D, P10>, Texture<B, D, P11>)) -> Seq<B::TextureRepr> {
        seq![textures.0.spec_repr(), textures.1.spec_repr(), textures.2.spec_repr(), textures.3.spec_repr(), textures.4.spec_repr(), textures.5.spec_repr(), textures.6.spec_repr(), textures.7.spec_repr(), textures.8.spec_repr()]
    }

    open spec fn spec_textures_made(textures: &(Texture<B, D, P3>, Texture<B, D, P4>, Texture<B, D, P5>, Texture<B, D, P6>, Texture<B, D, P7>, Texture<B, D, P8>, Texture<B, D, P9>, Texture<B, D, P10>, Texture<B, D, P11>), size: D::Size, mipmaps: usize, sampler: Sampler) -> bool {
        &&& <P3 as ColorSlot<B, D>>::spec_textures_made(&textures.0, size, mipmaps, sampler)
        &&& <P4 as ColorSlot<B, D>>::spec_textures_made(&textures.1, size, mipmaps, sampler)
        &&& <P5 as ColorSlot<B, D>>::spec_textures_made(&textures.2, size, mipmaps, sampler)
        &&& <P6 as ColorSlot<B, D>>::spec_textures_made(&textures.3, size, mipmaps, sampler)
        &&& <P7 as ColorSlot<B, D>>::spec_textures_made(&textures.4, size, mipmaps, sampler)
        &&& <P8 as ColorSlot<B, D>>::spec_textures_made(&textures.5, size, mipmaps, sampler)
        &&& <P9 as ColorSlot<B, D>>::spec_textures_made(&textures.6, size, mipmaps, sampler)
        &&& <P10 as ColorSlot<B, D>>::spec_textures_made(&textures.7, size, mipmaps, sampler)
        &&& <P11 as ColorSlot<B, D>>::spec_textures_made(&textures.8, size, mipmaps, sampler)
    }

    fn color_formats() -> (r: Vec<PixelFormat>) {
        let mut v = Vec::new();
        v.push(P3::pixel_format());
        v.push(P4::pixel_format());
        v.push(P5::pixel_format());
        v.push(P6::pixel_format());
        v.push(P7::pixel_format());
        v.push(P8::pixel_format());
        v.push(P9::pixel_format());
        v.push(P10::pixel_format());
        v.push(P11::pixel_format());
        proof {
            assert(v@ =~= seq![P3::spec_pixel_format(), P4::spec_pixel_format(), P5::spec_pixel_format(), P6::spec_pixel_format(), P7::spec_pixel_format(), P8::spec_pixel_format(), P9::spec_pixel_format(), P10::spec_pixel_format(), P11::spec_pixel_format()]);
        }
        v
    }

    #[verifier::rlimit(50)]
    fn reify_color_textures(
        backend: &mut B,
        size: D::Size,
        mipmaps: usize,
        sampler: &Sampler,
        framebuffer: &mut B::FramebufferRepr,
        attachment_index: usize,
    ) -> (r: Result<(Texture<B, D, P3>, Texture<B, D, P4>, Texture<B, D, P5>, Texture<B, D, P6>, Texture<B, D, P7>, Texture<B, D, P8>, Texture<B, D, P9>, Texture<B, D, P10>, Texture<B, D, P11>), FramebufferError>) {
        let ghost before = B::spec_color_attachments(framebuffer);
        let ghost mut reprs = Seq::<B::TextureRepr>::empty();
        proof {
            assert(before + spec_indexed(attachment_index, reprs) =~= before);
        }
        let mut index: usize = attachment_index;
        let ghost mid = B::spec_color_attachments(framebuffer);
        let t0 = match <P3 as ColorSlot<B, D>>::reify_color_textures(
            backend,
            size,
            mipmaps,
            sampler,
            framebuffer,
            index,
        ) {
            Ok(t) => t,
            Err(e) => {
                proof {
                    assert(<P3 as ColorSlot<B, D>>::spec_color_formats().len() == 1);
                    let rest = choose|rest: Seq<B::TextureRepr>|
                        rest.len() < <P3 as ColorSlot<B, D>>::spec_color_formats().len()
                            && B::spec_color_attachments(framebuffer) == mid + #[trigger] spec_indexed(
                            index,
                            rest,
                        );
                    lemma_failed_slot(
                        before,
                        attachment_index,
                        reprs,
                        mid,
                        index,
                        rest,
                        B::spec_color_attachments(framebuffer),
                    );
                    assert(reprs.len() < 9);
                }
                return Err(e);
            },
        };
        proof {
            assert(<P3 as ColorSlot<B, D>>::spec_textures(&t0) =~= seq![t0.spec_repr()]);
            assert(mid + spec_indexed(index, seq![t0.spec_repr()]) =~= mid.push((index, t0.spec_repr())));
            lemma_indexed_push(before, attachment_index, reprs, t0.spec_repr());
            reprs = reprs.push(t0.spec_repr());
            assert(B::spec_color_attachments(framebuffer) == before + spec_indexed(attachment_index, reprs));
        }
        index = index + 1;
        let ghost mid = B::spec_color_attachments(framebuffer);
        let t1 = match <P4 as ColorSlot<B, D>>::reify_color_textures(
            backend,
            size,
            mipmaps,
            sampler,
            framebuffer,
            index,
        ) {
            Ok(t) => t,
            Err(e) => {
                proof {
                    assert(<P4 as ColorSlot<B, D>>::spec_color_formats().len() == 1);
                    let rest = choose|rest: Seq<B::TextureRepr>|
                        rest.len() < <P4 as ColorSlot<B, D>>::spec_color_formats().len()
                            && B::spec_color_attachments(framebuffer) == mid + #[trigger] spec_indexed(
                            index,
                            rest,
                        );
                    lemma_failed_slot(
                        before,
                        attachment_index,
                        reprs,
                        mid,
                        index,
                        rest,
                        B::spec_color_attachments(framebuffer),
                    );
                    assert(reprs.len() < 9);
                }
                return Err(e);
            },
        };
        proof {
            assert(<P4 as ColorSlot<B, D>>::spec_textures(&t1) =~= seq![t1.spec_repr()]);
            assert(mid + spec_indexed(index, seq![t1.spec_repr()]) =~= mid.push((index, t1.spec_repr())));
            lemma_indexed_push(before, attachment_index, reprs, t1.spec_repr());
            reprs = reprs.push(t1.spec_repr());
            assert(B::spec_color_attachments(framebuffer) == before + spec_indexed(attachment_index, reprs));
        }
        index = index + 1;
        let ghost mid = B::spec_color_attachments(framebuffer);
        let t2 = match <P5 as ColorSlot<B, D>>::reify_color_textures(
            backend,
            size,
            mipmaps,
            sampler,
            framebuffer,
            index,
        ) {
            Ok(t) => t,
            Err(e) => {
                proof {
                    assert(<P5 as ColorSlot<B, D>>::spec_color_formats().len() == 1);
                    let rest = choose|rest: Seq<B::TextureRepr>|
                        rest.len() < <P5 as ColorSlot<B, D>>::spec_color_formats().len()
                            && B::spec_color_attachments(framebuffer) == mid + #[trigger] spec_indexed(
                            index,
                            rest,
                        );
                    lemma_failed_slot(
                        before,
                        attachment_index,
                        reprs,
                        mid,
                        index,
                        rest,
                        B::spec_color_attachments(framebuffer),
                    );
                    assert(reprs.len() < 9);
                }
                return Err(e);
            },
        };
        proof {
            assert(<P5 as ColorSlot<B, D>>::spec_textures(&t2) =~= seq![t2.spec_repr()]);
            assert(mid + spec_indexed(index, seq![t2.spec_repr()]) =~= mid.push((index, t2.spec_repr())));
            lemma_indexed_push(before, attachment_index, reprs, t2.spec_repr());
            reprs = reprs.push(t2.spec_repr());
            assert(B::spec_color_attachments(framebuffer) == before + spec_indexed(attachment_index, reprs));
        }
        index = index + 1;
        let ghost mid = B::spec_color_attachments(framebuffer);
        let t3 = match <P6 as ColorSlot<B, D>>::reify_color_textures(
            backend,
            size,
            mipmaps,
            sampler,
            framebuffer,
            index,
        ) {
            Ok(t) => t,
            Err(e) => {
                proof {
                    assert(<P6 as ColorSlot<B, D>>::spec_color_formats().len() == 1);
                    let rest = choose|rest: Seq<B::TextureRepr>|
                        rest.len() < <P6 as ColorSlot<B, D>>::spec_color_formats().len()
                            && B::spec_color_attachments(framebuffer) == mid + #[trigger] spec_indexed(
                            index,
                            rest,
                        );
                    lemma_failed_slot(
                        before,
                        attachment_index,
                        reprs,
                        mid,
                        index,
                        rest,
                        B::spec_color_attachments(framebuffer),
                    );
                    assert(reprs.len() < 9);
                }
                return Err(e);
            },
        };
        proof {
            assert(<P6 as ColorSlot<B, D>>::spec_textures(&t3) =~= seq![t3.spec_repr()]);
            assert(mid + spec_indexed(index, seq![t3.spec_repr()]) =~= mid.push((index, t3.spec_repr())));
            lemma_indexed_push(before, attachment_index, reprs, t3.spec_repr());
            reprs = reprs.push(t3.spec_repr());
            assert(B::spec_color_attachments(framebuffer) == before + spec_indexed(attachment_index, reprs));
        }
        index = index + 1;
        let ghost mid = B::spec_color_attachments(framebuffer);
        let t4 = match <P7 as ColorSlot<B, D>>::reify_color_textures(
            backend,
            size,
            mipmaps,
            sampler,
            framebuffer,
            index,
        ) {
            Ok(t) => t,
            Err(e) => {
                proof {
                    assert(<P7 as ColorSlot<B, D>>::spec_color_formats().len() == 1);
                    let rest = choose|rest: Seq<B::TextureRepr>|
                        rest.len() < <P7 as ColorSlot<B, D>>::spec_color_formats().len()
                            && B::spec_color_attachments(framebuffer) == mid + #[trigger] spec_indexed(
                            index,
                            rest,
                        );
                    lemma_failed_slot(
                        before,
                        attachment_index,
                        reprs,
                        mid,
                        index,
                        rest,
                        B::spec_color_attachments(framebuffer),
                    );
                    assert(reprs.len() < 9);
                }
                return Err(e);
            },
        };
        proof {
            assert(<P7 as ColorSlot<B, D>>::spec_textures(&t4) =~= seq![t4.spec_repr()]);
            assert(mid + spec_indexed(index, seq![t4.spec_repr()]) =~= mid.push((index, t4.spec_repr())));
            lemma_indexed_push(before, attachment_index, reprs, t4.spec_repr());
            reprs = reprs.push(t4.spec_repr());
            assert(B::spec_color_attachments(framebuffer) == before + spec_indexed(attachment_index, reprs));
        }
        index = index + 1;
        let ghost mid = B::spec_color_attachments(framebuffer);
        let t5 = match <P8 as ColorSlot<B, D>>::reify_color_textures(
            backend,
            size,
            mipmaps,
            sampler,
            framebuffer,
            index,
        ) {
            Ok(t) => t,
            Err(e) => {
                proof {
                    assert(<P8 as ColorSlot<B, D>>::spec_color_formats().len() == 1);
                    let rest = choose|rest: Seq<B::TextureRepr>|
                        rest.len() < <P8 as ColorSlot<B, D>>::spec_color_formats().len()
                            && B::spec_color_attachments(framebuffer) == mid + #[trigger] spec_indexed(
                            index,
                            rest,
                        );
                    lemma_failed_slot(
                        before,
                        attachment_index,
                        reprs,
                        mid,
                        index,
                        rest,
                        B::spec_color_attachments(framebuffer),
                    );
                    assert(reprs.len() < 9);
                }
                return Err(e);
            },
        };
        proof {
            assert(<P8 as ColorSlot<B, D>>::spec_textures(&t5) =~= seq![t5.spec_repr()]);
            assert(mid + spec_indexed(index, seq![t5.spec_repr()]) =~= mid.push((index, t5.spec_repr())));
            lemma_indexed_push(before, attachment_index, reprs, t5.spec_repr());
            reprs = reprs.push(t5.spec_repr());
            assert(B::spec_color_attachments(framebuffer) == before + spec_indexed(attachment_index, reprs));
        }
        index = index + 1;
        let ghost mid = B::spec_color_attachments(framebuffer);
        let t6 = match <P9 as ColorSlot<B, D>>::reify_color_textures(
            backend,
            size,
            mipmaps,
            sampler,
            framebuffer,
            index,
        ) {
            Ok(t) => t,
            Err(e) => {
                proof {
                    assert(<P9 as ColorSlot<B, D>>::spec_color_formats().len() == 1);
                    let rest = choose|rest: Seq<B::TextureRepr>|
                        rest.len() < <P9 as ColorSlot<B, D>>::spec_color_formats().len()
                            && B::spec_color_attachments(framebuffer) == mid + #[trigger] spec_indexed(
                            index,
                            rest,
                        );
                    lemma_failed_slot(
                        before,
                        attachment_index,
                        reprs,
                        mid,
                        index,
                        rest,
                        B::spec_color_attachments(framebuffer),
                    );
                    assert(reprs.len() < 9);
                }
                return Err(e);
            },
        };
        proof {
            assert(<P9 as ColorSlot<B, D>>::spec_textures(&t6) =~= seq![t6.spec_repr()]);
            assert(mid + spec_indexed(index, seq![t6.spec_repr()]) =~= mid.push((index, t6.spec_repr())));
            lemma_indexed_push(before, attachment_index, reprs, t6.spec_repr());
            reprs = reprs.push(t6.spec_repr());
            assert(B::spec_color_attachments(framebuffer) == before + spec_indexed(attachment_index, reprs));
        }
        index = index + 1;
        let ghost mid = B::spec_color_attachments(framebuffer);
        let t7 = match <P10 as ColorSlot<B, D>>::reify_color_textures(
            backend,
            size,
            mipmaps,
            sampler,
            framebuffer,
            index,
        ) {
            Ok(t) => t,
            Err(e) => {
                proof {
                    assert(<P10 as ColorSlot<B, D>>::spec_color_formats().len() == 1);
                    let rest = choose|rest: Seq<B::TextureRepr>|
                        rest.len() < <P10 as ColorSlot<B, D>>::spec_color_formats().len()
                            && B::spec_color_attachments(framebuffer) == mid + #[trigger] spec_indexed(
                            index,
                            rest,
                        );
                    lemma_failed_slot(
                        before,
                        attachment_index,
                        reprs,
                        mid,
                        index,
                        rest,
                        B::spec_color_attachments(framebuffer),
                    );
                    assert(reprs.len() < 9);
                }
                return Err(e);
            },
        };
        proof {
            assert(<P10 as ColorSlot<B, D>>::spec_textures(&t7) =~= seq![t7.spec_repr()]);
            assert(mid + spec_indexed(index, seq![t7.spec_repr()]) =~= mid.push((index, t7.spec_repr())));
            lemma_indexed_push(before, attachment_index, reprs, t7.spec_repr());
            reprs = reprs.push(t7.spec_repr());
            assert(B::spec_color_attachments(framebuffer) == before + spec_indexed(attachment_index, reprs));
        }
        index = index + 1;
        let ghost mid = B::spec_color_attachments(framebuffer);
        let t8 = match <P11 as ColorSlot<B, D>>::reify_color_textures(
            backend,
            size,
            mipmaps,
            sampler,
            framebuffer,
            index,
        ) {
            Ok(t) => t,
            Err(e) => {
                proof {
                    assert(<P11 as ColorSlot<B, D>>::spec_color_formats().len() == 1);
                    let rest = choose|rest: Seq<B::TextureRepr>|
                        rest.len() < <P11 as ColorSlot<B, D>>::spec_color_formats().len()
                            && B::spec_color_attachments(framebuffer) == mid + #[trigger] spec_indexed(
                            index,
                            rest,
                        );
                    lemma_failed_slot(
                        before,
                        attachment_index,
                        reprs,
                        mid,
                        index,
                        rest,
                        B::spec_color_attachments(framebuffer),
                    );
                    assert(reprs.len() < 9);
                }
                return Err(e);
            },
        };
        proof {
            assert(<P11 as ColorSlot<B, D>>::spec_textures(&t8) =~= seq![t8.spec_repr()]);
            assert(mid + spec_indexed(index, seq![t8.spec_repr()]) =~= mid.push((index, t8.spec_repr())));
            lemma_indexed_push(before, attachment_index, reprs, t8.spec_repr());
            reprs = reprs.push(t8.spec_repr());
            assert(B::spec_color_attachments(framebuffer) == before + spec_indexed(attachment_index, reprs));
        }
        let textures = (t0, t1, t2, t3, t4, t5, t6, t7, t8);
        proof {
            assert(reprs =~= seq![textures.0.spec_repr(), textures.1.spec_repr(), textures.2.spec_repr(), textures.3.spec_repr(), textures.4.spec_repr(), textures.5.spec_repr(), textures.6.spec_repr(), textures.7.spec_repr(), textures.8.spec_repr()]);
        }
        Ok(textures)
    }
}

impl<B, D, P2, P3, P4, P5, P6, P7, P8, P9, P10, P11> ColorSlot<B, D> for (P2, P3, P4, P5, P6, P7, P8, P9, P10, P11) where
    B: ?Sized + Framebuffer<D> + TextureBackend<D, P2> + TextureBackend<D, P3> + TextureBackend<D, P4> + TextureBackend<D, P5> + TextureBackend<D, P6> + TextureBackend<D, P7> + TextureBackend<D, P8> + TextureBackend<D, P9> + TextureBackend<D, P10> + TextureBackend<D, P11>,
    D: Dimensionable,
    D::Size: Copy,
    P2: ColorPixel + RenderablePixel,
    P3: ColorPixel + RenderablePixel,
    P4: ColorPixel + RenderablePixel,
    P5: ColorPixel + RenderablePixel,
    P6: ColorPixel + RenderablePixel,
    P7: ColorPixel + RenderablePixel,
    P8: ColorPixel + RenderablePixel,
    P9: ColorPixel + RenderablePixel,
    P10: ColorPixel + RenderablePixel,
    P11: ColorPixel + RenderablePixel,
 {
    type ColorTextures = (Texture<B, D, P2>, Texture<B, D, P3>, Texture<B, D, P4>, Texture<B, D, P5>, Texture<B, D, P6>, Texture<B, D, P7>, Texture<B, D, P8>, Texture<B, D, P9>, Texture<B, D, P10>, Texture<B, D, P11>);

    open spec fn spec_color_formats() -> Seq<PixelFormat> {
        seq![P2::spec_pixel_format(), P3::spec_pixel_format(), P4::spec_pixel_format(), P5::spec_pixel_format(), P6::spec_pixel_format(), P7::spec_pixel_format(), P8::spec_pixel_format(), P9::spec_pixel_format(), P10::spec_pixel_format(), P11::spec_pixel_format()]
    }

    open spec fn spec_textures(textures: &(Texture<B, D, P2>, Texture<B, D, P3>, Texture<B, D, P4>, Texture<B, D, P5>, Texture<B, D, P6>, Texture<B, D, P7>, Texture<B, D, P8>, Texture<B, D, P9>, Texture<B, D, P10>, Texture<B, D, P11>)) -> Seq<B::TextureRepr> {
        seq![textures.0.spec_repr(), textures.1.spec_repr(), textures.2.spec_repr(), textures.3.spec_repr(), textures.4.spec_repr(), textures.5.spec_repr(), textures.6.spec_repr(), textures.7.spec_repr(), textures.8.spec_repr(), textures.9.spec_repr()]
    }

    open spec fn spec_textures_made(textures: &(Texture<B, D, P2>, Texture<B, D, P3>, Texture<B, D, P4>, Texture<B, D, P5>, Texture<B, D, P6>, Texture<B, D, P7>, Texture<B, D, P8>, Texture<B, D, P9>, Texture<B, D, P10>, Texture<B, D, P11>), size: D::Size, mipmaps: usize, sampler: Sampler) -> bool {
        &&& <P2 as ColorSlot<B, D>>::spec_textures_made(&textures.0, size, mipmaps, sampler)
        &&& <P3 as ColorSlot<B, D>>::spec_textures_made(&textures.1, size, mipmaps, sampler)
        &&& <P4 as ColorSlot<B, D>>::spec_textures_made(&textures.2, size, mipmaps, sampler)
        &&& <P5 as ColorSlot<B, D>>::spec_textures_made(&textures.3, size, mipmaps, sampler)
        &&& <P6 as ColorSlot<B, D>>::spec_textures_made(&textures.4, size, mipmaps, sampler)
        &&& <P7 as ColorSlot<B, D>>::spec_textures_made(&textures.5, size, mipmaps, sampler)
        &&& <P8 as ColorSlot<B, D>>::spec_textures_made(&textures.6, size, mipmaps, sampler)
        &&& <P9 as ColorSlot<B, D>>::spec_textures_made(&textures.7, size, mipmaps, sampler)
        &&& <P10 as ColorSlot<B, D>>::spec_textures_made(&textures.8, size, mipmaps, sampler)
        &&& <P11 as ColorSlot<B, D>>::spec_textures_made(&textures.9, size, mipmaps, sampler)
    }

    fn color_formats() -> (r: Vec<PixelFormat>) {
        let mut v = Vec::new();
        v.push(P2::pixel_format());
        v.push(P3::pixel_format());
        v.push(P4::pixel_format());
        v.push(P5::pixel_format());
        v.push(P6::pixel_format());
        v.push(P7::pixel_format());
        v.push(P8::pixel_format());
        v.push(P9::pixel_format());
        v.push(P10::pixel_format());
        v.push(P11::pixel_format());
        proof {
            assert(v@ =~= seq![P2::spec_pixel_format(), P3::spec_pixel_format(), P4::spec_pixel_format(), P5::spec_pixel_format(), P6::spec_pixel_format(), P7::spec_pixel_format(), P8::spec_pixel_format(), P9::spec_pixel_format(), P10::spec_pixel_format(), P11::spec_pixel_format()]);
        }
        v
    }

    #[verifier::rlimit(50)]
    fn reify_color_textures(
        backend: &mut B,
        size: D::Size,
        mipmaps: usize,
        sampler: &Sampler,
        framebuffer: &mut B::FramebufferRepr,
        attachment_index: usize,
    ) -> (r: Result<(Texture<B, D, P2>, Texture<B, D, P3>, Texture<B, D, P4>, Texture<B, D, P5>, Texture<B, D, P6>, Texture<B, D, P7>, Texture<B, D, P8>, Texture<B, D, P9>, Texture<B, D, P10>, Texture<B, D, P11>), FramebufferError>) {
        let ghost before = B::spec_color_attachments(framebuffer);
        let ghost mut reprs = Seq::<B::TextureRepr>::empty();
        proof {
            assert(before + spec_indexed(attachment_index, reprs) =~= before);
        }
        let mut index: usize = attachment_index;
        let ghost mid = B::spec_color_attachments(framebuffer);
        let t0 = match <P2 as ColorSlot<B, D>>::reify_color_textures(
            backend,
            size,
            mipmaps,
            sampler,
            framebuffer,
            index,
        ) {
            Ok(t) => t,
            Err(e) => {
                proof {
                    assert(<P2 as ColorSlot<B, D>>::spec_color_formats().len() == 1);
                    let rest = choose|rest: Seq<B::TextureRepr>|
                        rest.len() < <P2 as ColorSlot<B, D>>::spec_color_formats().len()
                            && B::spec_color_attachments(framebuffer) == mid + #[trigger] spec_indexed(
                            index,
                            rest,
                        );
                    lemma_failed_slot(
                        before,
                        attachment_index,
                        reprs,
                        mid,
                        index,
                        rest,
                        B::spec_color_attachments(framebuffer),
                    );
                    assert(reprs.len() < 10);
                }
                return Err(e);
            },
        };
        proof {
            assert(<P2 as ColorSlot<B, D>>::spec_textures(&t0) =~= seq![t0.spec_repr()]);
            assert(mid + spec_indexed(index, seq![t0.spec_repr()]) =~= mid.push((index, t0.spec_repr())));
            lemma_indexed_push(before, attachment_index, reprs, t0.spec_repr());
            reprs = reprs.push(t0.spec_repr());
            assert(B::spec_color_attachments(framebuffer) == before + spec_indexed(attachment_index, reprs));
        }
        index = index + 1;
        let ghost mid = B::spec_color_attachments(framebuffer);
        let t1 = match <P3 as ColorSlot<B, D>>::reify_color_textures(
            backend,
            size,
            mipmaps,
            sampler,
            framebuffer,
            index,
        ) {
            Ok(t) => t,
            Err(e) => {
                proof {
                    assert(<P3 as ColorSlot<B, D>>::spec_color_formats().len() == 1);
                    let rest = choose|rest: Seq<B::TextureRepr>|
                        rest.len() < <P3 as ColorSlot<B, D>>::spec_color_formats().len()
                            && B::spec_color_attachments(framebuffer) == mid + #[trigger] spec_indexed(
                            index,
                            rest,
                        );
                    lemma_failed_slot(
                        before,
                        attachment_index,
                        reprs,
                        mid,
                        index,
                        rest,
                        B::spec_color_attachments(framebuffer),
                    );
                    assert(reprs.len() < 10);
                }
                return Err(e);
            },
        };
        proof {
            assert(<P3 as ColorSlot<B, D>>::spec_textures(&t1) =~= seq![t1.spec_repr()]);
            assert(mid + spec_indexed(index, seq![t1.spec_repr()]) =~= mid.push((index, t1.spec_repr())));
            lemma_indexed_push(before, attachment_index, reprs, t1.spec_repr());
            reprs = reprs.push(t1.spec_repr());
            assert(B::spec_color_attachments(framebuffer) == before + spec_indexed(attachment_index, reprs));
        }
        index = index + 1;
        let ghost mid = B::spec_color_attachments(framebuffer);
        let t2 = match <P4 as ColorSlot<B, D>>::reify_color_textures(
            backend,
            size,
            mipmaps,
            sampler,
            framebuffer,
            index,
        ) {
            Ok(t) => t,
            Err(e) => {
                proof {
                    assert(<P4 as ColorSlot<B, D>>::spec_color_formats().len() == 1);
                    let rest = choose|rest: Seq<B::TextureRepr>|
                        rest.len() < <P4 as ColorSlot<B, D>>::spec_color_formats().len()
                            && B::spec_color_attachments(framebuffer) == mid + #[trigger] spec_indexed(
                            index,
                            rest,
                        );
                    lemma_failed_slot(
                        before,
                        attachment_index,
                        reprs,
                        mid,
                        index,
                        rest,
                        B::spec_color_attachments(framebuffer),
                    );
                    assert(reprs.len() < 10);
                }
                return Err(e);
            },
        };
        proof {
            assert(<P4 as ColorSlot<B, D>>::spec_textures(&t2) =~= seq![t2.spec_repr()]);
            assert(mid + spec_indexed(index, seq![t2.spec_repr()]) =~= mid.push((index, t2.spec_repr())));
            lemma_indexed_push(before, attachment_index, reprs, t2.spec_repr());
            reprs = reprs.push(t2.spec_repr());
            assert(B::spec_color_attachments(framebuffer) == before + spec_indexed(attachment_index, reprs));
        }
        index = index + 1;
        let ghost mid = B::spec_color_attachments(framebuffer);
        let t3 = match <P5 as ColorSlot<B, D>>::reify_color_textures(
            backend,
            size,
            mipmaps,
            sampler,
            framebuffer,
            index,
        ) {
            Ok(t) => t,
            Err(e) => {
                proof {
                    assert(<P5 as ColorSlot<B, D>>::spec_color_formats().len() == 1);
                    let rest = choose|rest: Seq<B::TextureRepr>|
                        rest.len() < <P5 as ColorSlot<B, D>>::spec_color_formats().len()
                            && B::spec_color_attachments(framebuffer) == mid + #[trigger] spec_indexed(
                            index,
                            rest,
                        );
                    lemma_failed_slot(
                        before,
                        attachment_index,
                        reprs,
                        mid,
                        index,
                        rest,
                        B::spec_color_attachments(framebuffer),
                    );
                    assert(reprs.len() < 10);
                }
                return Err(e);
            },
        };
        proof {
            assert(<P5 as ColorSlot<B, D>>::spec_textures(&t3) =~= seq![t3.spec_repr()]);
            assert(mid + spec_indexed(index, seq![t3.spec_repr()]) =~= mid.push((index, t3.spec_repr())));
            lemma_indexed_push(before, attachment_index, reprs, t3.spec_repr());
            reprs = reprs.push(t3.spec_repr());
            assert(B::spec_color_attachments(framebuffer) == before + spec_indexed(attachment_index, reprs));
        }
        index = index + 1;
        let ghost mid = B::spec_color_attachments(framebuffer);
        let t4 = match <P6 as ColorSlot<B, D>>::reify_color_textures(
            backend,
            size,
            mipmaps,
            sampler,
            framebuffer,
            index,
        ) {
            Ok(t) => t,
            Err(e) => {
                proof {
                    assert(<P6 as ColorSlot<B, D>>::spec_color_formats().len() == 1);
                    let rest = choose|rest: Seq<B::TextureRepr>|
                        rest.len() < <P6 as ColorSlot<B, D>>::spec_color_formats().len()
                            && B::spec_color_attachments(framebuffer) == mid + #[trigger] spec_indexed(
                            index,
                            rest,
                        );
                    lemma_failed_slot(
                        before,
                        attachment_index,
                        reprs,
                        mid,
                        index,
                        rest,
                        B::spec_color_attachments(framebuffer),
                    );
                    assert(reprs.len() < 10);
                }
                return Err(e);
            },
        };
        proof {
            assert(<P6 as ColorSlot<B, D>>::spec_textures(&t4) =~= seq![t4.spec_repr()]);
            assert(mid + spec_indexed(index, seq![t4.spec_repr()]) =~= mid.push((index, t4.spec_repr())));
            lemma_indexed_push(before, attachment_index, reprs, t4.spec_repr());
            reprs = reprs.push(t4.spec_repr());
            assert(B::spec_color_attachments(framebuffer) == before + spec_indexed(attachment_index, reprs));
        }
        index = index + 1;
        let ghost mid = B::spec_color_attachments(framebuffer);
        let t5 = match <P7 as ColorSlot<B, D>>::reify_color_textures(
            backend,
            size,
            mipmaps,
            sampler,
            framebuffer,
            index,
        ) {
            Ok(t) => t,
            Err(e) => {
                proof {
                    assert(<P7 as ColorSlot<B, D>>::spec_color_formats().len() == 1);
                    let rest = choose|rest: Seq<B::TextureRepr>|
                        rest.len() < <P7 as ColorSlot<B, D>>::spec_color_formats().len()
                            && B::spec_color_attachments(framebuffer) == mid + #[trigger] spec_indexed(
                            index,
                            rest,
                        );
                    lemma_failed_slot(
                        before,
                        attachment_index,
                        reprs,
                        mid,
                        index,
                        rest,
                        B::spec_color_attachments(framebuffer),
                    );
                    assert(reprs.len() < 10);
                }
                return Err(e);
            },
        };
        proof {
            assert(<P7 as ColorSlot<B, D>>::spec_textures(&t5) =~= seq![t5.spec_repr()]);
            assert(mid + spec_indexed(index, seq![t5.spec_repr()]) =~= mid.push((index, t5.spec_repr())));
            lemma_indexed_push(before, attachment_index, reprs, t5.spec_repr());
            reprs = reprs.push(t5.spec_repr());
            assert(B::spec_color_attachments(framebuffer) == before + spec_indexed(attachment_index, reprs));
        }
        index = index + 1;
        let ghost mid = B::spec_color_attachments(framebuffer);
        let t6 = match <P8 as ColorSlot<B, D>>::reify_color_textures(
            backend,
            size,
            mipmaps,
            sampler,
            framebuffer,
            index,
        ) {
            Ok(t) => t,
            Err(e) => {
                proof {
                    assert(<P8 as ColorSlot<B, D>>::spec_color_formats().len() == 1);
                    let rest = choose|rest: Seq<B::TextureRepr>|
                        rest.len() < <P8 as ColorSlot<B, D>>::spec_color_formats().len()
                            && B::spec_color_attachments(framebuffer) == mid + #[trigger] spec_indexed(
                            index,
                            rest,
                        );
                    lemma_failed_slot(
                        before,
                        attachment_index,
                        reprs,
                        mid,
                        index,
                        rest,
                        B::spec_color_attachments(framebuffer),
                    );
                    assert(reprs.len() < 10);
                }
                return Err(e);
            },
        };
        proof {
            assert(<P8 as ColorSlot<B, D>>::spec_textures(&t6) =~= seq![t6.spec_repr()]);
            assert(mid + spec_indexed(index, seq![t6.spec_repr()]) =~= mid.push((index, t6.spec_repr())));
            lemma_indexed_push(before, attachment_index, reprs, t6.spec_repr());
            reprs = reprs.push(t6.spec_repr());
            assert(B::spec_color_attachments(framebuffer) == before + spec_indexed(attachment_index, reprs));
        }
        index = index + 1;
        let ghost mid = B::spec_color_attachments(framebuffer);
        let t7 = match <P9 as ColorSlot<B, D>>::reify_color_textures(
            backend,
            size,
            mipmaps,
            sampler,
            framebuffer,
            index,
        ) {
            Ok(t) => t,
            Err(e) => {
                proof {
                    assert(<P9 as ColorSlot<B, D>>::spec_color_formats().len() == 1);
                    let rest = choose|rest: Seq<B::TextureRepr>|
                        rest.len() < <P9 as ColorSlot<B, D>>::spec_color_formats().len()
                            && B::spec_color_attachments(framebuffer) == mid + #[trigger] spec_indexed(
                            index,
                            rest,
                        );
                    lemma_failed_slot(
                        before,
                        attachment_index,
                        reprs,
                        mid,
                        index,
                        rest,
                        B::spec_color_attachments(framebuffer),
                    );
                    assert(reprs.len() < 10);
                }
                return Err(e);
            },
        };
        proof {
            assert(<P9 as ColorSlot<B, D>>::spec_textures(&t7) =~= seq![t7.spec_repr()]);
            assert(mid + spec_indexed(index, seq![t7.spec_repr()]) =~= mid.push((index, t7.spec_repr())));
            lemma_indexed_push(before, attachment_index, reprs, t7.spec_repr());
            reprs = reprs.push(t7.spec_repr());
            assert(B::spec_color_attachments(framebuffer) == before + spec_indexed(attachment_index, reprs));
        }
        index = index + 1;
        let ghost mid = B::spec_color_attachments(framebuffer);
        let t8 = match <P10 as ColorSlot<B, D>>::reify_color_textures(
            backend,
            size,
            mipmaps,
            sampler,
            framebuffer,
            index,
        ) {
            Ok(t) => t,
            Err(e) => {
                proof {
                    assert(<P10 as ColorSlot<B, D>>::spec_color_formats().len() == 1);
                    let rest = choose|rest: Seq<B::TextureRepr>|
                        rest.len() < <P10 as ColorSlot<B, D>>::spec_color_formats().len()
                            && B::spec_color_attachments(framebuffer) == mid + #[trigger] spec_indexed(
                            index,
                            rest,
                        );
                    lemma_failed_slot(
                        before,
                        attachment_index,
                        reprs,
                        mid,
                        index,
                        rest,
                        B::spec_color_attachments(framebuffer),
                    );
                    assert(reprs.len() < 10);
                }
                return Err(e);
            },
        };
        proof {
            assert(<P10 as ColorSlot<B, D>>::spec_textures(&t8) =~= seq![t8.spec_repr()]);
            assert(mid + spec_indexed(index, seq![t8.spec_repr()]) =~= mid.push((index, t8.spec_repr())));
            lemma_indexed_push(before, attachment_index, reprs, t8.spec_repr());
            reprs = reprs.push(t8.spec_repr());
            assert(B::spec_color_attachments(framebuffer) == before + spec_indexed(attachment_index, reprs));
        }
        index = index + 1;
        let ghost mid = B::spec_color_attachments(framebuffer);
        let t9 = match <P11 as ColorSlot<B, D>>::reify_color_textures(
            backend,
            size,
            mipmaps,
            sampler,
            framebuffer,
            index,
        ) {
            Ok(t) => t,
            Err(e) => {
                proof {
                    assert(<P11 as ColorSlot<B, D>>::spec_color_formats().len() == 1);
                    let rest = choose|rest: Seq<B::TextureRepr>|
                        rest.len() < <P11 as ColorSlot<B, D>>::spec_color_formats().len()
                            && B::spec_color_attachments(framebuffer) == mid + #[trigger] spec_indexed(
                            index,
                            rest,
                        );
                    lemma_failed_slot(
                        before,
                        attachment_index,
                        reprs,
                        mid,
                        index,
                        rest,
                        B::spec_color_attachments(framebuffer),
                    );
                    assert(reprs.len() < 10);
                }
                return Err(e);
            },
        };
        proof {
            assert(<P11 as ColorSlot<B, D>>::spec_textures(&t9) =~= seq![t9.spec_repr()]);
            assert(mid + spec_indexed(index, seq![t9.spec_repr()]) =~= mid.push((index, t9.spec_repr())));
            lemma_indexed_push(before, attachment_index, reprs, t9.spec_repr());
            reprs = reprs.push(t9.spec_repr());
            assert(B::spec_color_attachments(framebuffer) == before + spec_indexed(attachment_index, reprs));
        }
        let textures = (t0, t1, t2, t3, t4, t5, t6, t7, t8, t9);
        proof {
            assert(reprs =~= seq![textures.0.spec_repr(), textures.1.spec_repr(), textures.2.spec_repr(), textures.3.spec_repr(), textures.4.spec_repr(), textures.5.spec_repr(), textures.6.spec_repr(), textures.7.spec_repr(), textures.8.spec_repr(), textures.9.spec_repr()]);
        }
        Ok(textures)
    }
}

impl<B, D, P1, P2, P3, P4, P5, P6, P7, P8, P9, P10, P11> ColorSlot<B, D> for (P1, P2, P3, P4, P5, P6, P7, P8, P9, P10, P11) where
    B: ?Sized + Framebuffer<D> + TextureBackend<D, P1> + TextureBackend<D, P2> + TextureBackend<D, P3> + TextureBackend<D, P4> + TextureBackend<D, P5> + TextureBackend<D, P6> + TextureBackend<D, P7> + TextureBackend<D, P8> + TextureBackend<D, P9> + TextureBackend<D, P10> + TextureBackend<D, P11>,
    D: Dimensionable,
    D::Size: Copy,
    P1: ColorPixel + RenderablePixel,
    P2: ColorPixel + RenderablePixel,
    P3: ColorPixel + RenderablePixel,
    P4: ColorPixel + RenderablePixel,
    P5: ColorPixel + RenderablePixel,
    P6: ColorPixel + RenderablePixel,
    P7: ColorPixel + RenderablePixel,
    P8: ColorPixel + RenderablePixel,
    P9: ColorPixel + RenderablePixel,
    P10: ColorPixel + RenderablePixel,
    P11: ColorPixel + RenderablePixel,
 {
    type ColorTextures = (Texture<B, D, P1>, Texture<B, D, P2>, Texture<B, D, P3>, Texture<B, D, P4>, Texture<B, D, P5>, Texture<B, D, P6>, Texture<B, D, P7>, Texture<B, D, P8>, Texture<B, D, P9>, Texture<B, D, P10>, Texture<B, D, P11>);

    open spec fn spec_color_formats() -> Seq<PixelFormat> {
        seq![P1::spec_pixel_format(), P2::spec_pixel_format(), P3::spec_pixel_format(), P4::spec_pixel_format(), P5::spec_pixel_format(), P6::spec_pixel_format(), P7::spec_pixel_format(), P8::spec_pixel_format(), P9::spec_pixel_format(), P10::spec_pixel_format(), P11::spec_pixel_format()]
    }

    open spec fn spec_textures(textures: &(Texture<B, D, P1>, Texture<B, D, P2>, Texture<B, D, P3>, Texture<B, D, P4>, Texture<B, D, P5>, Texture<B, D, P6>, Texture<B, D, P7>, Texture<B, D, P8>, Texture<B, D, P9>, Texture<B, D, P10>, Texture<B, D, P11>)) -> Seq<B::TextureRepr> {
        seq![textures.0.spec_repr(), textures.1.spec_repr(), textures.2.spec_repr(), textures.3.spec_repr(), textures.4.spec_repr(), textures.5.spec_repr(), textures.6.spec_repr(), textures.7.spec_repr(), textures.8.spec_repr(), textures.9.spec_repr(), textures.10.spec_repr()]
    }

    open spec fn spec_textures_made(textures: &(Texture<B, D, P1>, Texture<B, D, P2>, Texture<B, D, P3>, Texture<B, D, P4>, Texture<B, D, P5>, Texture<B, D, P6>, Texture<B, D, P7>, Texture<B, D, P8>, Texture<B, D, P9>, Texture<B, D, P10>, Texture<B, D, P11>), size: D::Size, mipmaps: usize, sampler: Sampler) -> bool {
        &&& <P1 as ColorSlot<B, D>>::spec_textures_made(&textures.0, size, mipmaps, sampler)
        &&& <P2 as ColorSlot<B, D>>::spec_textures_made(&textures.1, size, mipmaps, sampler)
        &&& <P3 as ColorSlot<B, D>>::spec_textures_made(&textures.2, size, mipmaps, sampler)
        &&& <P4 as ColorSlot<B, D>>::spec_textures_made(&textures.3, size, mipmaps, sampler)
        &&& <P5 as ColorSlot<B, D>>::spec_textures_made(&textures.4, size, mipmaps, sampler)
        &&& <P6 as ColorSlot<B, D>>::spec_textures_made(&textures.5, size, mipmaps, sampler)
        &&& <P7 as ColorSlot<B, D>>::spec_textures_made(&textures.6, size, mipmaps, sampler)
        &&& <P8 as ColorSlot<B, D>>::spec_textures_made(&textures.7, size, mipmaps, sampler)
        &&& <P9 as ColorSlot<B, D>>::spec_textures_made(&textures.8, size, mipmaps, sampler)
        &&& <P10 as ColorSlot<B, D>>::spec_textures_made(&textures.9, size, mipmaps, sampler)
        &&& <P11 as ColorSlot<B, D>>::spec_textures_made(&textures.10, size, mipmaps, sampler)
    }

    fn color_formats() -> (r: Vec<PixelFormat>) {
        let mut v = Vec::new();
        v.push(P1::pixel_format());
        v.push(P2::pixel_format());
        v.push(P3::pixel_format());
        v.push(P4::pixel_format());
        v.push(P5::pixel_format());
        v.push(P6::pixel_format());
        v.push(P7::pixel_format());
        v.push(P8::pixel_format());
        v.push(P9::pixel_format());
        v.push(P10::pixel_format());
        v.push(P11::pixel_format());
        proof {
            assert(v@ =~= seq![P1::spec_pixel_format(), P2::spec_pixel_format(), P3::spec_pixel_format(), P4::spec_pixel_format(), P5::spec_pixel_format(), P6::spec_pixel_format(), P7::spec_pixel_format(), P8::spec_pixel_format(), P9::spec_pixel_format(), P10::spec_pixel_format(), P11::spec_pixel_format()]);
        }
        v
    }

    #[verifier::rlimit(50)]
    fn reify_color_textures(
        backend: &mut B,
        size: D::Size,
        mipmaps: usize,
        sampler: &Sampler,
        framebuffer: &mut B::FramebufferRepr,
        attachment_index: usize,
    ) -> (r: Result<(Texture<B, D, P1>, Texture<B, D, P2>, Texture<B, D, P3>, Texture<B, D, P4>, Texture<B, D, P5>, Texture<B, D, P6>, Texture<B, D, P7>, Texture<B, D, P8>, Texture<B, D, P9>, Texture<B, D, P10>, Texture<B, D, P11>), FramebufferError>) {
        let ghost before = B::spec_color_attachments(framebuffer);
        let ghost mut reprs = Seq::<B::TextureRepr>::empty();
        proof {
            assert(before + spec_indexed(attachment_index, reprs) =~= before);
        }
        let mut index: usize = attachment_index;
        let ghost mid = B::spec_color_attachments(framebuffer);
        let t0 = match <P1 as ColorSlot<B, D>>::reify_color_textures(
            backend,
            size,
            mipmaps,
            sampler,
            framebuffer,
            index,
        ) {
            Ok(t) => t,
            Err(e) => {
                proof {
                    assert(<P1 as ColorSlot<B, D>>::spec_color_formats().len() == 1);
                    let rest = choose|rest: Seq<B::TextureRepr>|
                        rest.len() < <P1 as ColorSlot<B, D>>::spec_color_formats().len()
                            && B::spec_color_attachments(framebuffer) == mid + #[trigger] spec_indexed(
                            index,
                            rest,
                        );
                    lemma_failed_slot(
                        before,
                        attachment_index,
                        reprs,
                        mid,
                        index,
                        rest,
                        B::spec_color_attachments(framebuffer),
                    );
                    assert(reprs.len() < 11);
                }
                return Err(e);
            },
        };
        proof {
            assert(<P1 as ColorSlot<B, D>>::spec_textures(&t0) =~= seq![t0.spec_repr()]);
            assert(mid + spec_indexed(index, seq![t0.spec_repr()]) =~= mid.push((index, t0.spec_repr())));
            lemma_indexed_push(before, attachment_index, reprs, t0.spec_repr());
            reprs = reprs.push(t0.spec_repr());
            assert(B::spec_color_attachments(framebuffer) == before + spec_indexed(attachment_index, reprs));
        }
        index = index + 1;
        let ghost mid = B::spec_color_attachments(framebuffer);
        let t1 = match <P2 as ColorSlot<B, D>>::reify_color_textures(
            backend,
            size,
            mipmaps,
            sampler,
            framebuffer,
            index,
        ) {
            Ok(t) => t,
            Err(e) => {
                proof {
                    assert(<P2 as ColorSlot<B, D>>::spec_color_formats().len() == 1);
                    let rest = choose|rest: Seq<B::TextureRepr>|
                        rest.len() < <P2 as ColorSlot<B, D>>::spec_color_formats().len()
                            && B::spec_color_attachments(framebuffer) == mid + #[trigger] spec_indexed(
                            index,
                            rest,
                        );
                    lemma_failed_slot(
                        before,
                        attachment_index,
                        reprs,
                        mid,
                        index,
                        rest,
                        B::spec_color_attachments(framebuffer),
                    );
                    assert(reprs.len() < 11);
                }
                return Err(e);
            },
        };
        proof {
            assert(<P2 as ColorSlot<B, D>>::spec_textures(&t1) =~= seq![t1.spec_repr()]);
            assert(mid + spec_indexed(index, seq![t1.spec_repr()]) =~= mid.push((index, t1.spec_repr())));
            lemma_indexed_push(before, attachment_index, reprs, t1.spec_repr());
            reprs = reprs.push(t1.spec_repr());
            assert(B::spec_color_attachments(framebuffer) == before + spec_indexed(attachment_index, reprs));
        }
        index = index + 1;
        let ghost mid = B::spec_color_attachments(framebuffer);
        let t2 = match <P3 as ColorSlot<B, D>>::reify_color_textures(
            backend,
            size,
            mipmaps,
            sampler,
            framebuffer,
            index,
        ) {
            Ok(t) => t,
            Err(e) => {
                proof {
                    assert(<P3 as ColorSlot<B, D>>::spec_color_formats().len() == 1);
                    let rest = choose|rest: Seq<B::TextureRepr>|
                        rest.len() < <P3 as ColorSlot<B, D>>::spec_color_formats().len()
                            && B::spec_color_attachments(framebuffer) == mid + #[trigger] spec_indexed(
                            index,
                            rest,
                        );
                    lemma_failed_slot(
                        before,
                        attachment_index,
                        reprs,
                        mid,
                        index,
                        rest,
                        B::spec_color_attachments(framebuffer),
                    );
                    assert(reprs.len() < 11);
                }
                return Err(e);
            },
        };
        proof {
            assert(<P3 as ColorSlot<B, D>>::spec_textures(&t2) =~= seq![t2.spec_repr()]);
            assert(mid + spec_indexed(index, seq![t2.spec_repr()]) =~= mid.push((index, t2.spec_repr())));
            lemma_indexed_push(before, attachment_index, reprs, t2.spec_repr());
            reprs = reprs.push(t2.spec_repr());
            assert(B::spec_color_attachments(framebuffer) == before + spec_indexed(attachment_index, reprs));
        }
        index = index + 1;
        let ghost mid = B::spec_color_attachments(framebuffer);
        let t3 = match <P4 as ColorSlot<B, D>>::reify_color_textures(
            backend,
            size,
            mipmaps,
            sampler,
            framebuffer,
            index,
        ) {
            Ok(t) => t,
            Err(e) => {
                proof {
                    assert(<P4 as ColorSlot<B, D>>::spec_color_formats().len() == 1);
                    let rest = choose|rest: Seq<B::TextureRepr>|
                        rest.len() < <P4 as ColorSlot<B, D>>::spec_color_formats().len()
                            && B::spec_color_attachments(framebuffer) == mid + #[trigger] spec_indexed(
                            index,
                            rest,
                        );
                    lemma_failed_slot(
                        before,
                        attachment_index,
                        reprs,
                        mid,
                        index,
                        rest,
                        B::spec_color_attachments(framebuffer),
                    );
                    assert(reprs.len() < 11);
                }
                return Err(e);
            },
        };
        proof {
            assert(<P4 as ColorSlot<B, D>>::spec_textures(&t3) =~= seq![t3.spec_repr()]);
            assert(mid + spec_indexed(index, seq![t3.spec_repr()]) =~= mid.push((index, t3.spec_repr())));
            lemma_indexed_push(before, attachment_index, reprs, t3.spec_repr());
            reprs = reprs.push(t3.spec_repr());
            assert(B::spec_color_attachments(framebuffer) == before + spec_indexed(attachment_index, reprs));
        }
        index = index + 1;
        let ghost mid = B::spec_color_attachments(framebuffer);
        let t4 = match <P5 as ColorSlot<B, D>>::reify_color_textures(
            backend,
            size,
            mipmaps,
            sampler,
            framebuffer,
            index,
        ) {
            Ok(t) => t,
            Err(e) => {
                proof {
                    assert(<P5 as ColorSlot<B, D>>::spec_color_formats().len() == 1);
                    let rest = choose|rest: Seq<B::TextureRepr>|
                        rest.len() < <P5 as ColorSlot<B, D>>::spec_color_formats().len()
                            && B::spec_color_attachments(framebuffer) == mid + #[trigger] spec_indexed(
                            index,
                            rest,
                        );
                    lemma_failed_slot(
                        before,
                        attachment_index,
                        reprs,
                        mid,
                        index,
                        rest,
                        B::spec_color_attachments(framebuffer),
                    );
                    assert(reprs.len() < 11);
                }
                return Err(e);
            },
        };
        proof {
            assert(<P5 as ColorSlot<B, D>>::spec_textures(&t4) =~= seq![t4.spec_repr()]);
            assert(mid + spec_indexed(index, seq![t4.spec_repr()]) =~= mid.push((index, t4.spec_repr())));
            lemma_indexed_push(before, attachment_index, reprs, t4.spec_repr());
            reprs = reprs.push(t4.spec_repr());
            assert(B::spec_color_attachments(framebuffer) == before + spec_indexed(attachment_index, reprs));
        }
        index = index + 1;
        let ghost mid = B::spec_color_attachments(framebuffer);
        let t5 = match <P6 as ColorSlot<B, D>>::reify_color_textures(
            backend,
            size,
            mipmaps,
            sampler,
            framebuffer,
            index,
        ) {
            Ok(t) => t,
            Err(e) => {
                proof {
                    assert(<P6 as ColorSlot<B, D>>::spec_color_formats().len() == 1);
                    let rest = choose|rest: Seq<B::TextureRepr>|
                        rest.len() < <P6 as ColorSlot<B, D>>::spec_color_formats().len()
                            && B::spec_color_attachments(framebuffer) == mid + #[trigger] spec_indexed(
                            index,
                            rest,
                        );
                    lemma_failed_slot(
                        before,
                        attachment_index,
                        reprs,
                        mid,
                        index,
                        rest,
                        B::spec_color_attachments(framebuffer),
                    );
                    assert(reprs.len() < 11);
                }
                return Err(e);
            },
        };
        proof {
            assert(<P6 as ColorSlot<B, D>>::spec_textures(&t5) =~= seq![t5.spec_repr()]);
            assert(mid + spec_indexed(index, seq![t5.spec_repr()]) =~= mid.push((index, t5.spec_repr())));
            lemma_indexed_push(before, attachment_index, reprs, t5.spec_repr());
            reprs = reprs.push(t5.spec_repr());
            assert(B::spec_color_attachments(framebuffer) == before + spec_indexed(attachment_index, reprs));
        }
        index = index + 1;
        let ghost mid = B::spec_color_attachments(framebuffer);
        let t6 = match <P7 as ColorSlot<B, D>>::reify_color_textures(
            backend,
            size,
            mipmaps,
            sampler,
            framebuffer,
            index,
        ) {
            Ok(t) => t,
            Err(e) => {
                proof {
                    assert(<P7 as ColorSlot<B, D>>::spec_color_formats().len() == 1);
                    let rest = choose|rest: Seq<B::TextureRepr>|
                        rest.len() < <P7 as ColorSlot<B, D>>::spec_color_formats().len()
                            && B::spec_color_attachments(framebuffer) == mid + #[trigger] spec_indexed(
                            index,
                            rest,
                        );
                    lemma_failed_slot(
                        before,
                        attachment_index,
                        reprs,
                        mid,
                        index,
                        rest,
                        B::spec_color_attachments(framebuffer),
                    );
                    assert(reprs.len() < 11);
                }
                return Err(e);
            },
        };
        proof {
            assert(<P7 as ColorSlot<B, D>>::spec_textures(&t6) =~= seq![t6.spec_repr()]);
            assert(mid + spec_indexed(index, seq![t6.spec_repr()]) =~= mid.push((index, t6.spec_repr())));
            lemma_indexed_push(before, attachment_index, reprs, t6.spec_repr());
            reprs = reprs.push(t6.spec_repr());
            assert(B::spec_color_attachments(framebuffer) == before + spec_indexed(attachment_index, reprs));
        }
        index = index + 1;
        let ghost mid = B::spec_color_attachments(framebuffer);
        let t7 = match <P8 as ColorSlot<B, D>>::reify_color_textures(
            backend,
            size,
            mipmaps,
            sampler,
            framebuffer,
            index,
        ) {
            Ok(t) => t,
            Err(e) => {
                proof {
                    assert(<P8 as ColorSlot<B, D>>::spec_color_formats().len() == 1);
                    let rest = choose|rest: Seq<B::TextureRepr>|
                        rest.len() < <P8 as ColorSlot<B, D>>::spec_color_formats().len()
                            && B::spec_color_attachments(framebuffer) == mid + #[trigger] spec_indexed(
                            index,
                            rest,
                        );
                    lemma_failed_slot(
                        before,
                        attachment_index,
                        reprs,
                        mid,
                        index,
                        rest,
                        B::spec_color_attachments(framebuffer),
                    );
                    assert(reprs.len() < 11);
                }
                return Err(e);
            },
        };
        proof {
            assert(<P8 as ColorSlot<B, D>>::spec_textures(&t7) =~= seq![t7.spec_repr()]);
            assert(mid + spec_indexed(index, seq![t7.spec_repr()]) =~= mid.push((index, t7.spec_repr())));
            lemma_indexed_push(before, attachment_index, reprs, t7.spec_repr());
            reprs = reprs.push(t7.spec_repr());
            assert(B::spec_color_attachments(framebuffer) == before + spec_indexed(attachment_index, reprs));
        }
        index = index + 1;
        let ghost mid = B::spec_color_attachments(framebuffer);
        let t8 = match <P9 as ColorSlot<B, D>>::reify_color_textures(
            backend,
            size,
            mipmaps,
            sampler,
            framebuffer,
            index,
        ) {
            Ok(t) => t,
            Err(e) => {
                proof {
                    assert(<P9 as ColorSlot<B, D>>::spec_color_formats().len() == 1);
                    let rest = choose|rest: Seq<B::TextureRepr>|
                        rest.len() < <P9 as ColorSlot<B, D>>::spec_color_formats().len()
                            && B::spec_color_attachments(framebuffer) == mid + #[trigger] spec_indexed(
                            index,
                            rest,
                        );
                    lemma_failed_slot(
                        before,
                        attachment_index,
                        reprs,
                        mid,
                        index,
                        rest,
                        B::spec_color_attachments(framebuffer),
                    );
                    assert(reprs.len() < 11);
                }
                return Err(e);
            },
        };
        proof {
            assert(<P9 as ColorSlot<B, D>>::spec_textures(&t8) =~= seq![t8.spec_repr()]);
            assert(mid + spec_indexed(index, seq![t8.spec_repr()]) =~= mid.push((index, t8.spec_repr())));
            lemma_indexed_push(before, attachment_index, reprs, t8.spec_repr());
            reprs = reprs.push(t8.spec_repr());
            assert(B::spec_color_attachments(framebuffer) == before + spec_indexed(attachment_index, reprs));
        }
        index = index + 1;
        let ghost mid = B::spec_color_attachments(framebuffer);
        let t9 = match <P10 as ColorSlot<B, D>>::reify_color_textures(
            backend,
            size,
            mipmaps,
            sampler,
            framebuffer,
            index,
        ) {
            Ok(t) => t,
            Err(e) => {
                proof {
                    assert(<P10 as ColorSlot<B, D>>::spec_color_formats().len() == 1);
                    let rest = choose|rest: Seq<B::TextureRepr>|
                        rest.len() < <P10 as ColorSlot<B, D>>::spec_color_formats().len()
                            && B::spec_color_attachments(framebuffer) == mid + #[trigger] spec_indexed(
                            index,
                            rest,
                        );
                    lemma_failed_slot(
                        before,
                        attachment_index,
                        reprs,
                        mid,
                        index,
                        rest,
                        B::spec_color_attachments(framebuffer),
                    );
                    assert(reprs.len() < 11);
                }
                return Err(e);
            },
        };
        proof {
            assert(<P10 as ColorSlot<B, D>>::spec_textures(&t9) =~= seq![t9.spec_repr()]);
            assert(mid + spec_indexed(index, seq![t9.spec_repr()]) =~= mid.push((index, t9.spec_repr())));
            lemma_indexed_push(before, attachment_index, reprs, t9.spec_repr());
            reprs = reprs.push(t9.spec_repr());
            assert(B::spec_color_attachments(framebuffer) == before + spec_indexed(attachment_index, reprs));
        }
        index = index + 1;
        let ghost mid = B::spec_color_attachments(framebuffer);
        let t10 = match <P11 as ColorSlot<B, D>>::reify_color_textures(
            backend,
            size,
            mipmaps,
            sampler,
            framebuffer,
            index,
        ) {
            Ok(t) => t,
            Err(e) => {
                proof {
                    assert(<P11 as ColorSlot<B, D>>::spec_color_formats().len() == 1);
                    let rest = choose|rest: Seq<B::TextureRepr>|
                        rest.len() < <P11 as ColorSlot<B, D>>::spec_color_formats().len()
                            && B::spec_color_attachments(framebuffer) == mid + #[trigger] spec_indexed(
                            index,
                            rest,
                        );
                    lemma_failed_slot(
                        before,
                        attachment_index,
                        reprs,
                        mid,
                        index,
                        rest,
                        B::spec_color_attachments(framebuffer),
                    );
                    assert(reprs.len() < 11);
                }
                return Err(e);
            },
        };
        proof {
            assert(<P11 as ColorSlot<B, D>>::spec_textures(&t10) =~= seq![t10.spec_repr()]);
            assert(mid + spec_indexed(index, seq![t10.spec_repr()]) =~= mid.push((index, t10.spec_repr())));
            lemma_indexed_push(before, attachment_index, reprs, t10.spec_repr());
            reprs = reprs.push(t10.spec_repr());
            assert(B::spec_color_attachments(framebuffer) == before + spec_indexed(attachment_index, reprs));
        }
        let textures = (t0, t1, t2, t3, t4, t5, t6, t7, t8, t9, t10);
        proof {
            assert(reprs =~= seq![textures.0.spec_repr(), textures.1.spec_repr(), textures.2.spec_repr(), textures.3.spec_repr(), textures.4.spec_repr(), textures.5.spec_repr(), textures.6.spec_repr(), textures.7.spec_repr(), textures.8.spec_repr(), textures.9.spec_repr(), textures.10.spec_repr()]);
        }
        Ok(textures)
    }
}

impl<B, D, P0, P1, P2, P3, P4, P5, P6, P7, P8, P9, P10, P11> ColorSlot<B, D> for (P0, P1, P2, P3, P4, P5, P6, P7, P8, P9, P10, P11) where
    B: ?Sized + Framebuffer<D> + TextureBackend<D, P0> + TextureBackend<D, P1> + TextureBackend<D, P2> + TextureBackend<D, P3> + TextureBackend<D, P4> + TextureBackend<D, P5> + TextureBackend<D, P6> + TextureBackend<D, P7> + TextureBackend<D, P8> + TextureBackend<D, P9> + TextureBackend<D, P10> + TextureBackend<D, P11>,
    D: Dimensionable,
    D::Size: Copy,
    P0: ColorPixel + RenderablePixel,
    P1: ColorPixel + RenderablePixel,
    P2: ColorPixel + RenderablePixel,
    P3: ColorPixel + RenderablePixel,
    P4: ColorPixel + RenderablePixel,
    P5: ColorPixel + RenderablePixel,
    P6: ColorPixel + RenderablePixel,
    P7: ColorPixel + RenderablePixel,
    P8: ColorPixel + RenderablePixel,
    P9: ColorPixel + RenderablePixel,
    P10: ColorPixel + RenderablePixel,
    P11: ColorPixel + RenderablePixel,
 {
    type ColorTextures = (Texture<B, D, P0>, Texture<B, D, P1>, Texture<B, D, P2>, Texture<B, D, P3>, Texture<B, D, P4>, Texture<B, D, P5>, Texture<B, D, P6>, Texture<B, D, P7>, Texture<B, D, P8>, Texture<B, D, P9>, Texture<B, D, P10>, Texture<B, D, P11>);

    open spec fn spec_color_formats() -> Seq<PixelFormat> {
        seq![P0::spec_pixel_format(), P1::spec_pixel_format(), P2::spec_pixel_format(), P3::spec_pixel_format(), P4::spec_pixel_format(), P5::spec_pixel_format(), P6::spec_pixel_format(), P7::spec_pixel_format(), P8::spec_pixel_format(), P9::spec_pixel_format(), P10::spec_pixel_format(), P11::spec_pixel_format()]
    }

    open spec fn spec_textures(textures: &(Texture<B, D, P0>, Texture<B, D, P1>, Texture<B, D, P2>, Texture<B, D, P3>, Texture<B, D, P4>, Texture<B, D, P5>, Texture<B, D, P6>, Texture<B, D, P7>, Texture<B, D, P8>, Texture<B, D, P9>, Texture<B, D, P10>, Texture<B, D, P11>)) -> Seq<B::TextureRepr> {
        seq![textures.0.spec_repr(), textures.1.spec_repr(), textures.2.spec_repr(), textures.3.spec_repr(), textures.4.spec_repr(), textures.5.spec_repr(), textures.6.spec_repr(), textures.7.spec_repr(), textures.8.spec_repr(), textures.9.spec_repr(), textures.10.spec_repr(), textures.11.spec_repr()]
    }

    open spec fn spec_textures_made(textures: &(Texture<B, D, P0>, Texture<B, D, P1>, Texture<B, D, P2>, Texture<B, D, P3>, Texture<B, D, P4>, Texture<B, D, P5>, Texture<B, D, P6>, Texture<B, D, P7>, Texture<B, D, P8>, Texture<B, D, P9>, Texture<B, D, P10>, Texture<B, D, P11>), size: D::Size, mipmaps: usize, sampler: Sampler) -> bool {
        &&& <P0 as ColorSlot<B, D>>::spec_textures_made(&textures.0, size, mipmaps, sampler)
        &&& <P1 as ColorSlot<B, D>>::spec_textures_made(&textures.1, size, mipmaps, sampler)
        &&& <P2 as ColorSlot<B, D>>::spec_textures_made(&textures.2, size, mipmaps, sampler)
        &&& <P3 as ColorSlot<B, D>>::spec_textures_made(&textures.3, size, mipmaps, sampler)
        &&& <P4 as ColorSlot<B, D>>::spec_textures_made(&textures.4, size, mipmaps, sampler)
        &&& <P5 as ColorSlot<B, D>>::spec_textures_made(&textures.5, size, mipmaps, sampler)
        &&& <P6 as ColorSlot<B, D>>::spec_textures_made(&textures.6, size, mipmaps, sampler)
        &&& <P7 as ColorSlot<B, D>>::spec_textures_made(&textures.7, size, mipmaps, sampler)
        &&& <P8 as ColorSlot<B, D>>::spec_textures_made(&textures.8, size, mipmaps, sampler)
        &&& <P9 as ColorSlot<B, D>>::spec_textures_made(&textures.9, size, mipmaps, sampler)
        &&& <P10 as ColorSlot<B, D>>::spec_textures_made(&textures.10, size, mipmaps, sampler)
        &&& <P11 as ColorSlot<B, D>>::spec_textures_made(&textures.11, size, mipmaps, sampler)
    }

    fn color_formats() -> (r: Vec<PixelFormat>) {
        let mut v = Vec::new();
        v.push(P0::pixel_format());
        v.push(P1::pixel_format());
        v.push(P2::pixel_format());
        v.push(P3::pixel_format());
        v.push(P4::pixel_format());
        v.push(P5::pixel_format());
        v.push(P6::pixel_format());
        v.push(P7::pixel_format());
        v.push(P8::pixel_format());
        v.push(P9::pixel_format());
        v.push(P10::pixel_format());
        v.push(P11::pixel_format());
        proof {
            assert(v@ =~= seq![P0::spec_pixel_format(), P1::spec_pixel_format(), P2::spec_pixel_format(), P3::spec_pixel_format(), P4::spec_pixel_format(), P5::spec_pixel_format(), P6::spec_pixel_format(), P7::spec_pixel_format(), P8::spec_pixel_format(), P9::spec_pixel_format(), P10::spec_pixel_format(), P11::spec_pixel_format()]);
        }
        v
    }

    #[verifier::rlimit(50)]
    fn reify_color_textures(
        backend: &mut B,
        size: D::Size,
        mipmaps: usize,
        sampler: &Sampler,
        framebuffer: &mut B::FramebufferRepr,
        attachment_index: usize,
    ) -> (r: Result<(Texture<B, D, P0>, Texture<B, D, P1>, Texture<B, D, P2>, Texture<B, D, P3>, Texture<B, D, P4>, Texture<B, D, P5>, Texture<B, D, P6>, Texture<B, D, P7>, Texture<B, D, P8>, Texture<B, D, P9>, Texture<B, D, P10>, Texture<B, D, P11>), FramebufferError>) {
        let ghost before = B::spec_color_attachments(framebuffer);
        let ghost mut reprs = Seq::<B::TextureRepr>::empty();
        proof {
            assert(before + spec_indexed(attachment_index, reprs) =~= before);
        }
        let mut index: usize = attachment_index;
        let ghost mid = B::spec_color_attachments(framebuffer);
        let t0 = match <P0 as ColorSlot<B, D>>::reify_color_textures(
            backend,
            size,
            mipmaps,
            sampler,
            framebuffer,
            index,
        ) {
            Ok(t) => t,
            Err(e) => {
                proof {
                    assert(<P0 as ColorSlot<B, D>>::spec_color_formats().len() == 1);
                    let rest = choose|rest: Seq<B::TextureRepr>|
                        rest.len() < <P0 as ColorSlot<B, D>>::spec_color_formats().len()
                            && B::spec_color_attachments(framebuffer) == mid + #[trigger] spec_indexed(
                            index,
                            rest,
                        );
                    lemma_failed_slot(
                        before,
                        attachment_index,
                        reprs,
                        mid,
                        index,
                        rest,
                        B::spec_color_attachments(framebuffer),
                    );
                    assert(reprs.len() < 12);
                }
                return Err(e);
            },
        };
        proof {
            assert(<P0 as ColorSlot<B, D>>::spec_textures(&t0) =~= seq![t0.spec_repr()]);
            assert(mid + spec_indexed(index, seq![t0.spec_repr()]) =~= mid.push((index, t0.spec_repr())));
            lemma_indexed_push(before, attachment_index, reprs, t0.spec_repr());
            reprs = reprs.push(t0.spec_repr());
            assert(B::spec_color_attachments(framebuffer) == before + spec_indexed(attachment_index, reprs));
        }
        index = index + 1;
        let ghost mid = B::spec_color_attachments(framebuffer);
        let t1 = match <P1 as ColorSlot<B, D>>::reify_color_textures(
            backend,
            size,
            mipmaps,
            sampler,
            framebuffer,
            index,
        ) {
            Ok(t) => t,
            Err(e) => {
                proof {
                    assert(<P1 as ColorSlot<B, D>>::spec_color_formats().len() == 1);
                    let rest = choose|rest: Seq<B::TextureRepr>|
                        rest.len() < <P1 as ColorSlot<B, D>>::spec_color_formats().len()
                            && B::spec_color_attachments(framebuffer) == mid + #[trigger] spec_indexed(
                            index,
                            rest,
                        );
                    lemma_failed_slot(
                        before,
                        attachment_index,
                        reprs,
                        mid,
                        index,
                        rest,
                        B::spec_color_attachments(framebuffer),
                    );
                    assert(reprs.len() < 12);
                }
                return Err(e);
            },
        };
        proof {
            assert(<P1 as ColorSlot<B, D>>::spec_textures(&t1) =~= seq![t1.spec_repr()]);
            assert(mid + spec_indexed(index, seq![t1.spec_repr()]) =~= mid.push((index, t1.spec_repr())));
            lemma_indexed_push(before, attachment_index, reprs, t1.spec_repr());
            reprs = reprs.push(t1.spec_repr());
            assert(B::spec_color_attachments(framebuffer) == before + spec_indexed(attachment_index, reprs));
        }
        index = index + 1;
        let ghost mid = B::spec_color_attachments(framebuffer);
        let t2 = match <P2 as ColorSlot<B, D>>::reify_color_textures(
            backend,
            size,
            mipmaps,
            sampler,
            framebuffer,
            index,
        ) {
            Ok(t) => t,
            Err(e) => {
                proof {
                    assert(<P2 as ColorSlot<B, D>>::spec_color_formats().len() == 1);
                    let rest = choose|rest: Seq<B::TextureRepr>|
                        rest.len() < <P2 as ColorSlot<B, D>>::spec_color_formats().len()
                            && B::spec_color_attachments(framebuffer) == mid + #[trigger] spec_indexed(
                            index,
                            rest,
                        );
                    lemma_failed_slot(
                        before,
                        attachment_index,
                        reprs,
                        mid,
                        index,
                        rest,
                        B::spec_color_attachments(framebuffer),
                    );
                    assert(reprs.len() < 12);
                }
                return Err(e);
            },
        };
        proof {
            assert(<P2 as ColorSlot<B, D>>::spec_textures(&t2) =~= seq![t2.spec_repr()]);
            assert(mid + spec_indexed(index, seq![t2.spec_repr()]) =~= mid.push((index, t2.spec_repr())));
            lemma_indexed_push(before, attachment_index, reprs, t2.spec_repr());
            reprs = reprs.push(t2.spec_repr());
            assert(B::spec_color_attachments(framebuffer) == before + spec_indexed(attachment_index, reprs));
        }
        index = index + 1;
        let ghost mid = B::spec_color_attachments(framebuffer);
        let t3 = match <P3 as ColorSlot<B, D>>::reify_color_textures(
            backend,
            size,
            mipmaps,
            sampler,
            framebuffer,
            index,
        ) {
            Ok(t) => t,
            Err(e) => {
                proof {
                    assert(<P3 as ColorSlot<B, D>>::spec_color_formats().len() == 1);
                    let rest = choose|rest: Seq<B::TextureRepr>|
                        rest.len() < <P3 as ColorSlot<B, D>>::spec_color_formats().len()
                            && B::spec_color_attachments(framebuffer) == mid + #[trigger] spec_indexed(
                            index,
                            rest,
                        );
                    lemma_failed_slot(
                        before,
                        attachment_index,
                        reprs,
                        mid,
                        index,
                        rest,
                        B::spec_color_attachments(framebuffer),
                    );
                    assert(reprs.len() < 12);
                }
                return Err(e);
            },
        };
        proof {
            assert(<P3 as ColorSlot<B, D>>::spec_textures(&t3) =~= seq![t3.spec_repr()]);
            assert(mid + spec_indexed(index, seq![t3.spec_repr()]) =~= mid.push((index, t3.spec_repr())));
            lemma_indexed_push(before, attachment_index, reprs, t3.spec_repr());
            reprs = reprs.push(t3.spec_repr());
            assert(B::spec_color_attachments(framebuffer) == before + spec_indexed(attachment_index, reprs));
        }
        index = index + 1;
        let ghost mid = B::spec_color_attachments(framebuffer);
        let t4 = match <P4 as ColorSlot<B, D>>::reify_color_textures(
            backend,
            size,
            mipmaps,
            sampler,
            framebuffer,
            index,
        ) {
            Ok(t) => t,
            Err(e) => {
                proof {
                    assert(<P4 as ColorSlot<B, D>>::spec_color_formats().len() == 1);
                    let rest = choose|rest: Seq<B::TextureRepr>|
                        rest.len() < <P4 as ColorSlot<B, D>>::spec_color_formats().len()
                            && B::spec_color_attachments(framebuffer) == mid + #[trigger] spec_indexed(
                            index,
                            rest,
                        );
                    lemma_failed_slot(
                        before,
                        attachment_index,
                        reprs,
                        mid,
                        index,
                        rest,
                        B::spec_color_attachments(framebuffer),
                    );
                    assert(reprs.len() < 12);
                }
                return Err(e);
            },
        };
        proof {
            assert(<P4 as ColorSlot<B, D>>::spec_textures(&t4) =~= seq![t4.spec_repr()]);
            assert(mid + spec_indexed(index, seq![t4.spec_repr()]) =~= mid.push((index, t4.spec_repr())));
            lemma_indexed_push(before, attachment_index, reprs, t4.spec_repr());
            reprs = reprs.push(t4.spec_repr());
            assert(B::spec_color_attachments(framebuffer) == before + spec_indexed(attachment_index, reprs));
        }
        index = index + 1;
        let ghost mid = B::spec_color_attachments(framebuffer);
        let t5 = match <P5 as ColorSlot<B, D>>::reify_color_textures(
            backend,
            size,
            mipmaps,
            sampler,
            framebuffer,
            index,
        ) {
            Ok(t) => t,
            Err(e) => {
                proof {
                    assert(<P5 as ColorSlot<B, D>>::spec_color_formats().len() == 1);
                    let rest = choose|rest: Seq<B::TextureRepr>|
                        rest.len() < <P5 as ColorSlot<B, D>>::spec_color_formats().len()
                            && B::spec_color_attachments(framebuffer) == mid + #[trigger] spec_indexed(
                            index,
                            rest,
                        );
                    lemma_failed_slot(
                        before,
                        attachment_index,
                        reprs,
                        mid,
                        index,
                        rest,
                        B::spec_color_attachments(framebuffer),
                    );
                    assert(reprs.len() < 12);
                }
                return Err(e);
            },
        };
        proof {
            assert(<P5 as ColorSlot<B, D>>::spec_textures(&t5) =~= seq![t5.spec_repr()]);
            assert(mid + spec_indexed(index, seq![t5.spec_repr()]) =~= mid.push((index, t5.spec_repr())));
            lemma_indexed_push(before, attachment_index, reprs, t5.spec_repr());
            reprs = reprs.push(t5.spec_repr());
            assert(B::spec_color_attachments(framebuffer) == before + spec_indexed(attachment_index, reprs));
        }
        index = index + 1;
        let ghost mid = B::spec_color_attachments(framebuffer);
        let t6 = match <P6 as ColorSlot<B, D>>::reify_color_textures(
            backend,
            size,
            mipmaps,
            sampler,
            framebuffer,
            index,
        ) {
            Ok(t) => t,
            Err(e) => {
                proof {
                    assert(<P6 as ColorSlot<B, D>>::spec_color_formats().len() == 1);
                    let rest = choose|rest: Seq<B::TextureRepr>|
                        rest.len() < <P6 as ColorSlot<B, D>>::spec_color_formats().len()
                            && B::spec_color_attachments(framebuffer) == mid + #[trigger] spec_indexed(
                            index,
                            rest,
                        );
                    lemma_failed_slot(
                        before,
                        attachment_index,
                        reprs,
                        mid,
                        index,
                        rest,
                        B::spec_color_attachments(framebuffer),
                    );
                    assert(reprs.len() < 12);
                }
                return Err(e);
            },
        };
        proof {
            assert(<P6 as ColorSlot<B, D>>::spec_textures(&t6) =~= seq![t6.spec_repr()]);
            assert(mid + spec_indexed(index, seq![t6.spec_repr()]) =~= mid.push((index, t6.spec_repr())));
            lemma_indexed_push(before, attachment_index, reprs, t6.spec_repr());
            reprs = reprs.push(t6.spec_repr());
            assert(B::spec_color_attachments(framebuffer) == before + spec_indexed(attachment_index, reprs));
        }
        index = index + 1;
        let ghost mid = B::spec_color_attachments(framebuffer);
        let t7 = match <P7 as ColorSlot<B, D>>::reify_color_textures(
            backend,
            size,
            mipmaps,
            sampler,
            framebuffer,
            index,
        ) {
            Ok(t) => t,
            Err(e) => {
                proof {
                    assert(<P7 as ColorSlot<B, D>>::spec_color_formats().len() == 1);
                    let rest = choose|rest: Seq<B::TextureRepr>|
                        rest.len() < <P7 as ColorSlot<B, D>>::spec_color_formats().len()
                            && B::spec_color_attachments(framebuffer) == mid + #[trigger] spec_indexed(
                            index,
                            rest,
                        );
                    lemma_failed_slot(
                        before,
                        attachment_index,
                        reprs,
                        mid,
                        index,
                        rest,
                        B::spec_color_attachments(framebuffer),
                    );
                    assert(reprs.len() < 12);
                }
                return Err(e);
            },
        };
        proof {
            assert(<P7 as ColorSlot<B, D>>::spec_textures(&t7) =~= seq![t7.spec_repr()]);
            assert(mid + spec_indexed(index, seq![t7.spec_repr()]) =~= mid.push((index, t7.spec_repr())));
            lemma_indexed_push(before, attachment_index, reprs, t7.spec_repr());
            reprs = reprs.push(t7.spec_repr());
            assert(B::spec_color_attachments(framebuffer) == before + spec_indexed(attachment_index, reprs));
        }
        index = index + 1;
        let ghost mid = B::spec_color_attachments(framebuffer);
        let t8 = match <P8 as ColorSlot<B, D>>::reify_color_textures(
            backend,
            size,
            mipmaps,
            sampler,
            framebuffer,
            index,
        ) {
            Ok(t) => t,
            Err(e) => {
                proof {
                    assert(<P8 as ColorSlot<B, D>>::spec_color_formats().len() == 1);
                    let rest = choose|rest: Seq<B::TextureRepr>|
                        rest.len() < <P8 as ColorSlot<B, D>>::spec_color_formats().len()
                            && B::spec_color_attachments(framebuffer) == mid + #[trigger] spec_indexed(
                            index,
                            rest,
                        );
                    lemma_failed_slot(
                        before,
                        attachment_index,
                        reprs,
                        mid,
                        index,
                        rest,
                        B::spec_color_attachments(framebuffer),
                    );
                    assert(reprs.len() < 12);
                }
                return Err(e);
            },
        };
        proof {
            assert(<P8 as ColorSlot<B, D>>::spec_textures(&t8) =~= seq![t8.spec_repr()]);
            assert(mid + spec_indexed(index, seq![t8.spec_repr()]) =~= mid.push((index, t8.spec_repr())));
            lemma_indexed_push(before, attachment_index, reprs, t8.spec_repr());
            reprs = reprs.push(t8.spec_repr());
            assert(B::spec_color_attachments(framebuffer) == before + spec_indexed(attachment_index, reprs));
        }
        index = index + 1;
        let ghost mid = B::spec_color_attachments(framebuffer);
        let t9 = match <P9 as ColorSlot<B, D>>::reify_color_textures(
            backend,
            size,
            mipmaps,
            sampler,
            framebuffer,
            index,
        ) {
            Ok(t) => t,
            Err(e) => {
                proof {
                    assert(<P9 as ColorSlot<B, D>>::spec_color_formats().len() == 1);
                    let rest = choose|rest: Seq<B::TextureRepr>|
                        rest.len() < <P9 as ColorSlot<B, D>>::spec_color_formats().len()
                            && B::spec_color_attachments(framebuffer) == mid + #[trigger] spec_indexed(
                            index,
                            rest,
                        );
                    lemma_failed_slot(
                        before,
                        attachment_index,
                        reprs,
                        mid,
                        index,
                        rest,
                        B::spec_color_attachments(framebuffer),
                    );
                    assert(reprs.len() < 12);
                }
                return Err(e);
            },
        };
        proof {
            assert(<P9 as ColorSlot<B, D>>::spec_textures(&t9) =~= seq![t9.spec_repr()]);
            assert(mid + spec_indexed(index, seq![t9.spec_repr()]) =~= mid.push((index, t9.spec_repr())));
            lemma_indexed_push(before, attachment_index, reprs, t9.spec_repr());
            reprs = reprs.push(t9.spec_repr());
            assert(B::spec_color_attachments(framebuffer) == before + spec_indexed(attachment_index, reprs));
        }
        index = index + 1;
        let ghost mid = B::spec_color_attachments(framebuffer);
        let t10 = match <P10 as ColorSlot<B, D>>::reify_color_textures(
            backend,
            size,
            mipmaps,
            sampler,
            framebuffer,
            index,
        ) {
            Ok(t) => t,
            Err(e) => {
                proof {
                    assert(<P10 as ColorSlot<B, D>>::spec_color_formats().len() == 1);
                    let rest = choose|rest: Seq<B::TextureRepr>|
                        rest.len() < <P10 as ColorSlot<B, D>>::spec_color_formats().len()
                            && B::spec_color_attachments(framebuffer) == mid + #[trigger] spec_indexed(
                            index,
                            rest,
                        );
                    lemma_failed_slot(
                        before,
                        attachment_index,
                        reprs,
                        mid,
                        index,
                        rest,
                        B::spec_color_attachments(framebuffer),
                    );
                    assert(reprs.len() < 12);
                }
                return Err(e);
            },
        };
        proof {
            assert(<P10 as ColorSlot<B, D>>::spec_textures(&t10) =~= seq![t10.spec_repr()]);
            assert(mid + spec_indexed(index, seq![t10.spec_repr()]) =~= mid.push((index, t10.spec_repr())));
            lemma_indexed_push(before, attachment_index, reprs, t10.spec_repr());
            reprs = reprs.push(t10.spec_repr());
            assert(B::spec_color_attachments(framebuffer) == before + spec_indexed(attachment_index, reprs));
        }
        index = index + 1;
        let ghost mid = B::spec_color_attachments(framebuffer);
        let t11 = match <P11 as ColorSlot<B, D>>::reify_color_textures(
            backend,
            size,
            mipmaps,
            sampler,
            framebuffer,
            index,
        ) {
            Ok(t) => t,
            Err(e) => {
                proof {
                    assert(<P11 as ColorSlot<B, D>>::spec_color_formats().len() == 1);
                    let rest = choose|rest: Seq<B::TextureRepr>|
                        rest.len() < <P11 as ColorSlot<B, D>>::spec_color_formats().len()
                            && B::spec_color_attachments(framebuffer) == mid + #[trigger] spec_indexed(
                            index,
                            rest,
                        );
                    lemma_failed_slot(
                        before,
                        attachment_index,
                        reprs,
                        mid,
                        index,
                        rest,
                        B::spec_color_attachments(framebuffer),
                    );
                    assert(reprs.len() < 12);
                }
                return Err(e);
            },
        };
        proof {
            assert(<P11 as ColorSlot<B, D>>::spec_textures(&t11) =~= seq![t11.spec_repr()]);
            assert(mid + spec_indexed(index, seq![t11.spec_repr()]) =~= mid.push((index, t11.spec_repr())));
            lemma_indexed_push(before, attachment_index, reprs, t11.spec_repr());
            reprs = reprs.push(t11.spec_repr());
            assert(B::spec_color_attachments(framebuffer) == before + spec_indexed(attachment_index, reprs));
        }
        let textures = (t0, t1, t2, t3, t4, t5, t6, t7, t8, t9, t10, t11);
        proof {
            assert(reprs =~= seq![textures.0.spec_repr(), textures.1.spec_repr(), textures.2.spec_repr(), textures.3.spec_repr(), textures.4.spec_repr(), textures.5.spec_repr(), textures.6.spec_repr(), textures.7.spec_repr(), textures.8.spec_repr(), textures.9.spec_repr(), textures.10.spec_repr(), textures.11.spec_repr()]);
        }
        Ok(textures)
    }
}


/// A single pixel type as a color slot asks for its pixel format, and its texture is the one
/// attached first.
pub proof fn law_single_color_slot<B, D, P>(texture: &Texture<B, D, P>) where
    B: ?Sized + Framebuffer<D> + TextureBackend<D, P>,
    D: Dimensionable,
    D::Size: Copy,
    P: ColorPixel + RenderablePixel,
    ensures
        <P as ColorSlot<B, D>>::spec_color_formats().len() == 1,
        <P as ColorSlot<B, D>>::spec_color_formats()[0] == P::spec_pixel_format(),
        <P as ColorSlot<B, D>>::spec_textures(texture).len() == 1,
        <P as ColorSlot<B, D>>::spec_textures(texture)[0] == texture.spec_repr(),
{
}

/// A tuple of 2 pixel types as a color slot asks for the pixel formats of its types in order,
/// and its textures are attached in the same order: the `k`-th format is the one of the `k`-th
/// type, whose texture is the `k`-th attached.
pub proof fn law_color_slot_order_2<B, D, P10, P11>(textures: &(Texture<B, D, P10>, Texture<B, D, P11>)) where
    B: ?Sized + Framebuffer<D> + TextureBackend<D, P10> + TextureBackend<D, P11>,
    D: Dimensionable,
    D::Size: Copy,
    P10: ColorPixel + RenderablePixel,
    P11: ColorPixel + RenderablePixel,
    ensures
        <(P10, P11) as ColorSlot<B, D>>::spec_color_formats().len() == 2,
        <(P10, P11) as ColorSlot<B, D>>::spec_textures(textures).len() == 2,
        <(P10, P11) as ColorSlot<B, D>>::spec_color_formats()[0] == P10::spec_pixel_format(),
        <(P10, P11) as ColorSlot<B, D>>::spec_textures(textures)[0] == textures.0.spec_repr(),
        <(P10, P11) as ColorSlot<B, D>>::spec_color_formats()[1] == P11::spec_pixel_format(),
        <(P10, P11) as ColorSlot<B, D>>::spec_textures(textures)[1] == textures.1.spec_repr(),
{
}

/// A tuple of 3 pixel types as a color slot asks for the pixel formats of its types in order,
/// and its textures are attached in the same order: the `k`-th format is the one of the `k`-th
/// type, whose texture is the `k`-th attached.
pub proof fn law_color_slot_order_3<B, D, P9, P10, P11>(textures: &(Texture<B, D, P9>, Texture<B, D, P10>, Texture<B, D, P11>)) where
    B: ?Sized + Framebuffer<D> + TextureBackend<D, P9> + TextureBackend<D, P10> + TextureBackend<D, P11>,
    D: Dimensionable,
    D::Size: Copy,
    P9: ColorPixel + RenderablePixel,
    P10: ColorPixel + RenderablePixel,
    P11: ColorPixel + RenderablePixel,
    ensures
        <(P9, P10, P11) as ColorSlot<B, D>>::spec_color_formats().len() == 3,
        <(P9, P10, P11) as ColorSlot<B, D>>::spec_textures(textures).len() == 3,
        <(P9, P10, P11) as ColorSlot<B, D>>::spec_color_formats()[0] == P9::spec_pixel_format(),
        <(P9, P10, P11) as ColorSlot<B, D>>::spec_textures(textures)[0] == textures.0.spec_repr(),
        <(P9, P10, P11) as ColorSlot<B, D>>::spec_color_formats()[1] == P10::spec_pixel_format(),
        <(P9, P10, P11) as ColorSlot<B, D>>::spec_textures(textures)[1] == textures.1.spec_repr(),
        <(P9, P10, P11) as ColorSlot<B, D>>::spec_color_formats()[2] == P11::spec_pixel_format(),
        <(P9, P10, P11) as ColorSlot<B, D>>::spec_textures(textures)[2] == textures.2.spec_repr(),
{
}

/// A tuple of 4 pixel types as a color slot asks for the pixel formats of its types in order,
/// and its textures are attached in the same order: the `k`-th format is the one of the `k`-th
/// type, whose texture is the `k`-th attached.
pub proof fn law_color_slot_order_4<B, D, P8, P9, P10, P11>(textures: &(Texture<B, D, P8>, Texture<B, D, P9>, Texture<B, D, P10>, Texture<B, D, P11>)) where
    B: ?Sized + Framebuffer<D> + TextureBackend<D, P8> + TextureBackend<D, P9> + TextureBackend<D, P10> + TextureBackend<D, P11>,
    D: Dimensionable,
    D::Size: Copy,
    P8: ColorPixel + RenderablePixel,
    P9: ColorPixel + RenderablePixel,
    P10: ColorPixel + RenderablePixel,
    P11: ColorPixel + RenderablePixel,
    ensures
        <(P8, P9, P10, P11) as ColorSlot<B, D>>::spec_color_formats().len() == 4,
        <(P8, P9, P10, P11) as ColorSlot<B, D>>::spec_textures(textures).len() == 4,
        <(P8, P9, P10, P11) as ColorSlot<B, D>>::spec_color_formats()[0] == P8::spec_pixel_format(),
        <(P8, P9, P10, P11) as ColorSlot<B, D>>::spec_textures(textures)[0] == textures.0.spec_repr(),
        <(P8, P9, P10, P11) as ColorSlot<B, D>>::spec_color_formats()[1] == P9::spec_pixel_format(),
        <(P8, P9, P10, P11) as ColorSlot<B, D>>::spec_textures(textures)[1] == textures.1.spec_repr(),
        <(P8, P9, P10, P11) as ColorSlot<B, D>>::spec_color_formats()[2] == P10::spec_pixel_format(),
        <(P8, P9, P10, P11) as ColorSlot<B, D>>::spec_textures(textures)[2] == textures.2.spec_repr(),
        <(P8, P9, P10, P11) as ColorSlot<B, D>>::spec_color_formats()[3] == P11::spec_pixel_format(),
        <(P8, P9, P10, P11) as ColorSlot<B, D>>::spec_textures(textures)[3] == textures.3.spec_repr(),
{
}

/// A tuple of 5 pixel types as a color slot asks for the pixel formats of its types in order,
/// and its textures are attached in the same order: the `k`-th format is the one of the `k`-th
/// type, whose texture is the `k`-th attached.
pub proof fn law_color_slot_order_5<B, D, P7, P8, P9, P10, P11>(textures: &(Texture<B, D, P7>, Texture<B, D, P8>, Texture<B, D, P9>, Texture<B, D, P10>, Texture<B, D, P11>)) where
    B: ?Sized + Framebuffer<D> + TextureBackend<D, P7> + TextureBackend<D, P8> + TextureBackend<D, P9> + TextureBackend<D, P10> + TextureBackend<D, P11>,
    D: Dimensionable,
    D::Size: Copy,
    P7: ColorPixel + RenderablePixel,
    P8: ColorPixel + RenderablePixel,
    P9: ColorPixel + RenderablePixel,
    P10: ColorPixel + RenderablePixel,
    P11: ColorPixel + RenderablePixel,
    ensures
        <(P7, P8, P9, P10, P11) as ColorSlot<B, D>>::spec_color_formats().len() == 5,
        <(P7, P8, P9, P10, P11) as ColorSlot<B, D>>::spec_textures(textures).len() == 5,
        <(P7, P8, P9, P10, P11) as ColorSlot<B, D>>::spec_color_formats()[0] == P7::spec_pixel_format(),
        <(P7, P8, P9, P10, P11) as ColorSlot<B, D>>::spec_textures(textures)[0] == textures.0.spec_repr(),
        <(P7, P8, P9, P10, P11) as ColorSlot<B, D>>::spec_color_formats()[1] == P8::spec_pixel_format(),
        <(P7, P8, P9, P10, P11) as ColorSlot<B, D>>::spec_textures(textures)[1] == textures.1.spec_repr(),
        <(P7, P8, P9, P10, P11) as ColorSlot<B, D>>::spec_color_formats()[2] == P9::spec_pixel_format(),
        <(P7, P8, P9, P10, P11) as ColorSlot<B, D>>::spec_textures(textures)[2] == textures.2.spec_repr(),
        <(P7, P8, P9, P10, P11) as ColorSlot<B, D>>::spec_color_formats()[3] == P10::spec_pixel_format(),
        <(P7, P8, P9, P10, P11) as ColorSlot<B, D>>::spec_textures(textures)[3] == textures.3.spec_repr(),
        <(P7, P8, P9, P10, P11) as ColorSlot<B, D>>::spec_color_formats()[4] == P11::spec_pixel_format(),
        <(P7, P8, P9, P10, P11) as ColorSlot<B, D>>::spec_textures(textures)[4] == textures.4.spec_repr(),
{
}

/// A tuple of 6 pixel types as a color slot asks for the pixel formats of its types in order,
/// and its textures are attached in the same order: the `k`-th format is the one of the `k`-th
/// type, whose texture is the `k`-th attached.
pub proof fn law_color_slot_order_6<B, D, P6, P7, P8, P9, P10, P11>(textures: &(Texture<B, D, P6>, Texture<B, D, P7>, Texture<B, D, P8>, Texture<B, D, P9>, Texture<B, D, P10>, Texture<B, D, P11>)) where
    B: ?Sized + Framebuffer<D> + TextureBackend<D, P6> + TextureBackend<D, P7> + TextureBackend<D, P8> + TextureBackend<D, P9> + TextureBackend<D, P10> + TextureBackend<D, P11>,
    D: Dimensionable,
    D::Size: Copy,
    P6: ColorPixel + RenderablePixel,
    P7: ColorPixel + RenderablePixel,
    P8: ColorPixel + RenderablePixel,
    P9: ColorPixel + RenderablePixel,
    P10: ColorPixel + RenderablePixel,
    P11: ColorPixel + RenderablePixel,
    ensures
        <(P6, P7, P8, P9, P10, P11) as ColorSlot<B, D>>::spec_color_formats().len() == 6,
        <(P6, P7, P8, P9, P10, P11) as ColorSlot<B, D>>::spec_textures(textures).len() == 6,
        <(P6, P7, P8, P9, P10, P11) as ColorSlot<B, D>>::spec_color_formats()[0] == P6::spec_pixel_format(),
        <(P6, P7, P8, P9, P10, P11) as ColorSlot<B, D>>::spec_textures(textures)[0] == textures.0.spec_repr(),
        <(P6, P7, P8, P9, P10, P11) as ColorSlot<B, D>>::spec_color_formats()[1] == P7::spec_pixel_format(),
        <(P6, P7, P8, P9, P10, P11) as ColorSlot<B, D>>::spec_textures(textures)[1] == textures.1.spec_repr(),
        <(P6, P7, P8, P9, P10, P11) as ColorSlot<B, D>>::spec_color_formats()[2] == P8::spec_pixel_format(),
        <(P6, P7, P8, P9, P10, P11) as ColorSlot<B, D>>::spec_textures(textures)[2] == textures.2.spec_repr(),
        <(P6, P7, P8, P9, P10, P11) as ColorSlot<B, D>>::spec_color_formats()[3] == P9::spec_pixel_format(),
        <(P6, P7, P8, P9, P10, P11) as ColorSlot<B, D>>::spec_textures(textures)[3] == textures.3.spec_repr(),
        <(P6, P7, P8, P9, P10, P11) as ColorSlot<B, D>>::spec_color_formats()[4] == P10::spec_pixel_format(),
        <(P6, P7, P8, P9, P10, P11) as ColorSlot<B, D>>::spec_textures(textures)[4] == textures.4.spec_repr(),
        <(P6, P7, P8, P9, P10, P11) as ColorSlot<B, D>>::spec_color_formats()[5] == P11::spec_pixel_format(),
        <(P6, P7, P8, P9, P10, P11) as ColorSlot<B, D>>::spec_textures(textures)[5] == textures.5.spec_repr(),
{
}

/// A tuple of 7 pixel types as a color slot asks for the pixel formats of its types in order,
/// and its textures are attached in the same order: the `k`-th format is the one of the `k`-th
/// type, whose texture is the `k`-th attached.
pub proof fn law_color_slot_order_7<B, D, P5, P6, P7, P8, P9, P10, P11>(textures: &(Texture<B, D, P5>, Texture<B, D, P6>, Texture<B, D, P7>, Texture<B, D, P8>, Texture<B, D, P9>, Texture<B, D, P10>, Texture<B, D, P11>)) where
    B: ?Sized + Framebuffer<D> + TextureBackend<D, P5> + TextureBackend<D, P6> + TextureBackend<D, P7> + TextureBackend<D, P8> + TextureBackend<D, P9> + TextureBackend<D, P10> + TextureBackend<D, P11>,
    D: Dimensionable,
    D::Size: Copy,
    P5: ColorPixel + RenderablePixel,
    P6: ColorPixel + RenderablePixel,
    P7: ColorPixel + RenderablePixel,
    P8: ColorPixel + RenderablePixel,
    P9: ColorPixel + RenderablePixel,
    P10: ColorPixel + RenderablePixel,
    P11: ColorPixel + RenderablePixel,
    ensures
        <(P5, P6, P7, P8, P9, P10, P11) as ColorSlot<B, D>>::spec_color_formats().len() == 7,
        <(P5, P6, P7, P8, P9, P10, P11) as ColorSlot<B, D>>::spec_textures(textures).len() == 7,
        <(P5, P6, P7, P8, P9, P10, P11) as ColorSlot<B, D>>::spec_color_formats()[0] == P5::spec_pixel_format(),
        <(P5, P6, P7, P8, P9, P10, P11) as ColorSlot<B, D>>::spec_textures(textures)[0] == textures.0.spec_repr(),
        <(P5, P6, P7, P8, P9, P10, P11) as ColorSlot<B, D>>::spec_color_formats()[1] == P6::spec_pixel_format(),
        <(P5, P6, P7, P8, P9, P10, P11) as ColorSlot<B, D>>::spec_textures(textures)[1] == textures.1.spec_repr(),
        <(P5, P6, P7, P8, P9, P10, P11) as ColorSlot<B, D>>::spec_color_formats()[2] == P7::spec_pixel_format(),
        <(P5, P6, P7, P8, P9, P10, P11) as ColorSlot<B, D>>::spec_textures(textures)[2] == textures.2.spec_repr(),
        <(P5, P6, P7, P8, P9, P10, P11) as ColorSlot<B, D>>::spec_color_formats()[3] == P8::spec_pixel_format(),
        <(P5, P6, P7, P8, P9, P10, P11) as ColorSlot<B, D>>::spec_textures(textures)[3] == textures.3.spec_repr(),
        <(P5, P6, P7, P8, P9, P10, P11) as ColorSlot<B, D>>::spec_color_formats()[4] == P9::spec_pixel_format(),
        <(P5, P6, P7, P8, P9, P10, P11) as ColorSlot<B, D>>::spec_textures(textures)[4] == textures.4.spec_repr(),
        <(P5, P6, P7, P8, P9, P10, P11) as ColorSlot<B, D>>::spec_color_formats()[5] == P10::spec_pixel_format(),
        <(P5, P6, P7, P8, P9, P10, P11) as ColorSlot<B, D>>::spec_textures(textures)[5] == textures.5.spec_repr(),
        <(P5, P6, P7, P8, P9, P10, P11) as ColorSlot<B, D>>::spec_color_formats()[6] == P11::spec_pixel_format(),
        <(P5, P6, P7, P8, P9, P10, P11) as ColorSlot<B, D>>::spec_textures(textures)[6] == textures.6.spec_repr(),
{
}

/// A tuple of 8 pixel types as a color slot asks for the pixel formats of its types in order,
/// and its textures are attached in the same order: the `k`-th format is the one of the `k`-th
/// type, whose texture is the `k`-th attached.
pub proof fn law_color_slot_order_8<B, D, P4, P5, P6, P7, P8, P9, P10, P11>(textures: &(Texture<B, D, P4>, Texture<B, D, P5>, Texture<B, D, P6>, Texture<B, D, P7>, Texture<B, D, P8>, Texture<B, D, P9>, Texture<B, D, P10>, Texture<B, D, P11>)) where
    B: ?Sized + Framebuffer<D> + TextureBackend<D, P4> + TextureBackend<D, P5> + TextureBackend<D, P6> + TextureBackend<D, P7> + TextureBackend<D, P8> + TextureBackend<D, P9> + TextureBackend<D, P10> + TextureBackend<D, P11>,
    D: Dimensionable,
    D::Size: Copy,
    P4: ColorPixel + RenderablePixel,
    P5: ColorPixel + RenderablePixel,
    P6: ColorPixel + RenderablePixel,
    P7: ColorPixel + RenderablePixel,
    P8: ColorPixel + RenderablePixel,
    P9: ColorPixel + RenderablePixel,
    P10: ColorPixel + RenderablePixel,
    P11: ColorPixel + RenderablePixel,
    ensures
        <(P4, P5, P6, P7, P8, P9, P10, P11) as ColorSlot<B, D>>::spec_color_formats().len() == 8,
        <(P4, P5, P6, P7, P8, P9, P10, P11) as ColorSlot<B, D>>::spec_textures(textures).len() == 8,
        <(P4, P5, P6, P7, P8, P9, P10, P11) as ColorSlot<B, D>>::spec_color_formats()[0] == P4::spec_pixel_format(),
        <(P4, P5, P6, P7, P8, P9, P10, P11) as ColorSlot<B, D>>::spec_textures(textures)[0] == textures.0.spec_repr(),
        <(P4, P5, P6, P7, P8, P9, P10, P11) as ColorSlot<B, D>>::spec_color_formats()[1] == P5::spec_pixel_format(),
        <(P4, P5, P6, P7, P8, P9, P10, P11) as ColorSlot<B, D>>::spec_textures(textures)[1] == textures.1.spec_repr(),
        <(P4, P5, P6, P7, P8, P9, P10, P11) as ColorSlot<B, D>>::spec_color_formats()[2] == P6::spec_pixel_format(),
        <(P4, P5, P6, P7, P8, P9, P10, P11) as ColorSlot<B, D>>::spec_textures(textures)[2] == textures.2.spec_repr(),
        <(P4, P5, P6, P7, P8, P9, P10, P11) as ColorSlot<B, D>>::spec_color_formats()[3] == P7::spec_pixel_format(),
        <(P4, P5, P6, P7, P8, P9, P10, P11) as ColorSlot<B, D>>::spec_textures(textures)[3] == textures.3.spec_repr(),
        <(P4, P5, P6, P7, P8, P9, P10, P11) as ColorSlot<B, D>>::spec_color_formats()[4] == P8::spec_pixel_format(),
        <(P4, P5, P6, P7, P8, P9, P10, P11) as ColorSlot<B, D>>::spec_textures(textures)[4] == textures.4.spec_repr(),
        <(P4, P5, P6, P7, P8, P9, P10, P11) as ColorSlot<B, D>>::spec_color_formats()[5] == P9::spec_pixel_format(),
        <(P4, P5, P6, P7, P8, P9, P10, P11) as ColorSlot<B, D>>::spec_textures(textures)[5] == textures.5.spec_repr(),
        <(P4, P5, P6, P7, P8, P9, P10, P11) as ColorSlot<B, D>>::spec_color_formats()[6] == P10::spec_pixel_format(),
        <(P4, P5, P6, P7, P8, P9, P10, P11) as ColorSlot<B, D>>::spec_textures(textures)[6] == textures.6.spec_repr(),
        <(P4, P5, P6, P7, P8, P9, P10, P11) as ColorSlot<B, D>>::spec_color_formats()[7] == P11::spec_pixel_format(),
        <(P4, P5, P6, P7, P8, P9, P10, P11) as ColorSlot<B, D>>::spec_textures(textures)[7] == textures.7.spec_repr(),
{
}

/// A tuple of 9 pixel types as a color slot asks for the pixel formats of its types in order,
/// and its textures are attached in the same order: the `k`-th format is the one of the `k`-th
/// type, whose texture is the `k`-th attached.
pub proof fn law_color_slot_order_9<B, D, P3, P4, P5, P6, P7, P8, P9, P10, P11>(textures: &(Texture<B, D, P3>, Texture<B, D, P4>, Texture<B, D, P5>, Texture<B, D, P6>, Texture<B, D, P7>, Texture<B, D, P8>, Texture<B, D, P9>, Texture<B, D, P10>, Texture<B, D, P11>)) where
    B: ?Sized + Framebuffer<D> + TextureBackend<D, P3> + TextureBackend<D, P4> + TextureBackend<D, P5> + TextureBackend<D, P6> + TextureBackend<D, P7> + TextureBackend<D, P8> + TextureBackend<D, P9> + TextureBackend<D, P10> + TextureBackend<D, P11>,
    D: Dimensionable,
    D::Size: Copy,
    P3: ColorPixel + RenderablePixel,
    P4: ColorPixel + RenderablePixel,
    P5: ColorPixel + RenderablePixel,
    P6: ColorPixel + RenderablePixel,
    P7: ColorPixel + RenderablePixel,
    P8: ColorPixel + RenderablePixel,
    P9: ColorPixel + RenderablePixel,
    P10: ColorPixel + RenderablePixel,
    P11: ColorPixel + RenderablePixel,
    ensures
        <(P3, P4, P5, P6, P7, P8, P9, P10, P11) as ColorSlot<B, D>>::spec_color_formats().len() == 9,
        <(P3, P4, P5, P6, P7, P8, P9, P10, P11) as ColorSlot<B, D>>::spec_textures(textures).len() == 9,
        <(P3, P4, P5, P6, P7, P8, P9, P10, P11) as ColorSlot<B, D>>::spec_color_formats()[0] == P3::spec_pixel_format(),
        <(P3, P4, P5, P6, P7, P8, P9, P10, P11) as ColorSlot<B, D>>::spec_textures(textures)[0] == textures.0.spec_repr(),
        <(P3, P4, P5, P6, P7, P8, P9, P10, P11) as ColorSlot<B, D>>::spec_color_formats()[1] == P4::spec_pixel_format(),
        <(P3, P4, P5, P6, P7, P8, P9, P10, P11) as ColorSlot<B, D>>::spec_textures(textures)[1] == textures.1.spec_repr(),
        <(P3, P4, P5, P6, P7, P8, P9, P10, P11) as ColorSlot<B, D>>::spec_color_formats()[2] == P5::spec_pixel_format(),
        <(P3, P4, P5, P6, P7, P8, P9, P10, P11) as ColorSlot<B, D>>::spec_textures(textures)[2] == textures.2.spec_repr(),
        <(P3, P4, P5, P6, P7, P8, P9, P10, P11) as ColorSlot<B, D>>::spec_color_formats()[3] == P6::spec_pixel_format(),
        <(P3, P4, P5, P6, P7, P8, P9, P10, P11) as ColorSlot<B, D>>::spec_textures(textures)[3] == textures.3.spec_repr(),
        <(P3, P4, P5, P6, P7, P8, P9, P10, P11) as ColorSlot<B, D>>::spec_color_formats()[4] == P7::spec_pixel_format(),
        <(P3, P4, P5, P6, P7, P8, P9, P10, P11) as ColorSlot<B, D>>::spec_textures(textures)[4] == textures.4.spec_repr(),
        <(P3, P4, P5, P6, P7, P8, P9, P10, P11) as ColorSlot<B, D>>::spec_color_formats()[5] == P8::spec_pixel_format(),
        <(P3, P4, P5, P6, P7, P8, P9, P10, P11) as ColorSlot<B, D>>::spec_textures(textures)[5] == textures.5.spec_repr(),
        <(P3, P4, P5, P6, P7, P8, P9, P10, P11) as ColorSlot<B, D>>::spec_color_formats()[6] == P9::spec_pixel_format(),
        <(P3, P4, P5, P6, P7, P8, P9, P10, P11) as ColorSlot<B, D>>::spec_textures(textures)[6] == textures.6.spec_repr(),
        <(P3, P4, P5, P6, P7, P8, P9, P10, P11) as ColorSlot<B, D>>::spec_color_formats()[7] == P10::spec_pixel_format(),
        <(P3, P4, P5, P6, P7, P8, P9, P10, P11) as ColorSlot<B, D>>::spec_textures(textures)[7] == textures.7.spec_repr(),
        <(P3, P4, P5, P6, P7, P8, P9, P10, P11) as ColorSlot<B, D>>::spec_color_formats()[8] == P11::spec_pixel_format(),
        <(P3, P4, P5, P6, P7, P8, P9, P10, P11) as ColorSlot<B, D>>::spec_textures(textures)[8] == textures.8.spec_repr(),
{
}

/// A tuple of 10 pixel types as a color slot asks for the pixel formats of its types in order,
/// and its textures are attached in the same order: the `k`-th format is the one of the `k`-th
/// type, whose texture is the `k`-th attached.
pub proof fn law_color_slot_order_10<B, D, P2, P3, P4, P5, P6, P7, P8, P9, P10, P11>(textures: &(Texture<B, D, P2>, Texture<B, D, P3>, Texture<B, D, P4>, Texture<B, D, P5>, Texture<B, D, P6>, Texture<B, D, P7>, Texture<B, D, P8>, Texture<B, D, P9>, Texture<B, D, P10>, Texture<B, D, P11>)) where
    B: ?Sized + Framebuffer<D> + TextureBackend<D, P2> + TextureBackend<D, P3> + TextureBackend<D, P4> + TextureBackend<D, P5> + TextureBackend<D, P6> + TextureBackend<D, P7> + TextureBackend<D, P8> + TextureBackend<D, P9> + TextureBackend<D, P10> + TextureBackend<D, P11>,
    D: Dimensionable,
    D::Size: Copy,
    P2: ColorPixel + RenderablePixel,
    P3: ColorPixel + RenderablePixel,
    P4: ColorPixel + RenderablePixel,
    P5: ColorPixel + RenderablePixel,
    P6: ColorPixel + RenderablePixel,
    P7: ColorPixel + RenderablePixel,
    P8: ColorPixel + RenderablePixel,
    P9: ColorPixel + RenderablePixel,
    P10: ColorPixel + RenderablePixel,
    P11: ColorPixel + RenderablePixel,
    ensures
        <(P2, P3, P4, P5, P6, P7, P8, P9, P10, P11) as ColorSlot<B, D>>::spec_color_formats().len() == 10,
        <(P2, P3, P4, P5, P6, P7, P8, P9, P10, P11) as ColorSlot<B, D>>::spec_textures(textures).len() == 10,
        <(P2, P3, P4, P5, P6, P7, P8, P9, P10, P11) as ColorSlot<B, D>>::spec_color_formats()[0] == P2::spec_pixel_format(),
        <(P2, P3, P4, P5, P6, P7, P8, P9, P10, P11) as ColorSlot<B, D>>::spec_textures(textures)[0] == textures.0.spec_repr(),
        <(P2, P3, P4, P5, P6, P7, P8, P9, P10, P11) as ColorSlot<B, D>>::spec_color_formats()[1] == P3::spec_pixel_format(),
        <(P2, P3, P4, P5, P6, P7, P8, P9, P10, P11) as ColorSlot<B, D>>::spec_textures(textures)[1] == textures.1.spec_repr(),
        <(P2, P3, P4, P5, P6, P7, P8, P9, P10, P11) as ColorSlot<B, D>>::spec_color_formats()[2] == P4::spec_pixel_format(),
        <(P2, P3, P4, P5, P6, P7, P8, P9, P10, P11) as ColorSlot<B, D>>::spec_textures(textures)[2] == textures.2.spec_repr(),
        <(P2, P3, P4, P5, P6, P7, P8, P9, P10, P11) as ColorSlot<B, D>>::spec_color_formats()[3] == P5::spec_pixel_format(),
        <(P2, P3, P4, P5, P6, P7, P8, P9, P10, P11) as ColorSlot<B, D>>::spec_textures(textures)[3] == textures.3.spec_repr(),
        <(P2, P3, P4, P5, P6, P7, P8, P9, P10, P11) as ColorSlot<B, D>>::spec_color_formats()[4] == P6::spec_pixel_format(),
        <(P2, P3, P4, P5, P6, P7, P8, P9, P10, P11) as ColorSlot<B, D>>::spec_textures(textures)[4] == textures.4.spec_repr(),
        <(P2, P3, P4, P5, P6, P7, P8, P9, P10, P11) as ColorSlot<B, D>>::spec_color_formats()[5] == P7::spec_pixel_format(),
        <(P2, P3, P4, P5, P6, P7, P8, P9, P10, P11) as ColorSlot<B, D>>::spec_textures(textures)[5] == textures.5.spec_repr(),
        <(P2, P3, P4, P5, P6, P7, P8, P9, P10, P11) as ColorSlot<B, D>>::spec_color_formats()[6] == P8::spec_pixel_format(),
        <(P2, P3, P4, P5, P6, P7, P8, P9, P10, P11) as ColorSlot<B, D>>::spec_textures(textures)[6] == textures.6.spec_repr(),
        <(P2, P3, P4, P5, P6, P7, P8, P9, P10, P11) as ColorSlot<B, D>>::spec_color_formats()[7] == P9::spec_pixel_format(),
        <(P2, P3, P4, P5, P6, P7, P8, P9, P10, P11) as ColorSlot<B, D>>::spec_textures(textures)[7] == textures.7.spec_repr(),
        <(P2, P3, P4, P5, P6, P7, P8, P9, P10, P11) as ColorSlot<B, D>>::spec_color_formats()[8] == P10::spec_pixel_format(),
        <(P2, P3, P4, P5, P6, P7, P8, P9, P10, P11) as ColorSlot<B, D>>::spec_textures(textures)[8] == textures.8.spec_repr(),
        <(P2, P3, P4, P5, P6, P7, P8, P9, P10, P11) as ColorSlot<B, D>>::spec_color_formats()[9] == P11::spec_pixel_format(),
        <(P2, P3, P4, P5, P6, P7, P8, P9, P10, P11) as ColorSlot<B, D>>::spec_textures(textures)[9] == textures.9.spec_repr(),
{
}

/// A tuple of 11 pixel types as a color slot asks for the pixel formats of its types in order,
/// and its textures are attached in the same order: the `k`-th format is the one of the `k`-th
/// type, whose texture is the `k`-th attached.
pub proof fn law_color_slot_order_11<B, D, P1, P2, P3, P4, P5, P6, P7, P8, P9, P10, P11>(textures: &(Texture<B, D, P1>, Texture<B, D, P2>, Texture<B, D, P3>, Texture<B, D, P4>, Texture<B, D, P5>, Texture<B, D, P6>, Texture<B, D, P7>, Texture<B, D, P8>, Texture<B, D, P9>, Texture<B, D, P10>, Texture<B, D, P11>)) where
    B: ?Sized + Framebuffer<D> + TextureBackend<D, P1> + TextureBackend<D, P2> + TextureBackend<D, P3> + TextureBackend<D, P4> + TextureBackend<D, P5> + TextureBackend<D, P6> + TextureBackend<D, P7> + TextureBackend<D, P8> + TextureBackend<D, P9> + TextureBackend<D, P10> + TextureBackend<D, P11>,
    D: Dimensionable,
    D::Size: Copy,
    P1: ColorPixel + RenderablePixel,
    P2: ColorPixel + RenderablePixel,
    P3: ColorPixel + RenderablePixel,
    P4: ColorPixel + RenderablePixel,
    P5: ColorPixel + RenderablePixel,
    P6: ColorPixel + RenderablePixel,
    P7: ColorPixel + RenderablePixel,
    P8: ColorPixel + RenderablePixel,
    P9: ColorPixel + RenderablePixel,
    P10: ColorPixel + RenderablePixel,
    P11: ColorPixel + RenderablePixel,
    ensures
        <(P1, P2, P3, P4, P5, P6, P7, P8, P9, P10, P11) as ColorSlot<B, D>>::spec_color_formats().len() == 11,
        <(P1, P2, P3, P4, P5, P6, P7, P8, P9, P10, P11) as ColorSlot<B, D>>::spec_textures(textures).len() == 11,
        <(P1, P2, P3, P4, P5, P6, P7, P8, P9, P10, P11) as ColorSlot<B, D>>::spec_color_formats()[0] == P1::spec_pixel_format(),
        <(P1, P2, P3, P4, P5, P6, P7, P8, P9, P10, P11) as ColorSlot<B, D>>::spec_textures(textures)[0] == textures.0.spec_repr(),
        <(P1, P2, P3, P4, P5, P6, P7, P8, P9, P10, P11) as ColorSlot<B, D>>::spec_color_formats()[1] == P2::spec_pixel_format(),
        <(P1, P2, P3, P4, P5, P6, P7, P8, P9, P10, P11) as ColorSlot<B, D>>::spec_textures(textures)[1] == textures.1.spec_repr(),
        <(P1, P2, P3, P4, P5, P6, P7, P8, P9, P10, P11) as ColorSlot<B, D>>::spec_color_formats()[2] == P3::spec_pixel_format(),
        <(P1, P2, P3, P4, P5, P6, P7, P8, P9, P10, P11) as ColorSlot<B, D>>::spec_textures(textures)[2] == textures.2.spec_repr(),
        <(P1, P2, P3, P4, P5, P6, P7, P8, P9, P10, P11) as ColorSlot<B, D>>::spec_color_formats()[3] == P4::spec_pixel_format(),
        <(P1, P2, P3, P4, P5, P6, P7, P8, P9, P10, P11) as ColorSlot<B, D>>::spec_textures(textures)[3] == textures.3.spec_repr(),
        <(P1, P2, P3, P4, P5, P6, P7, P8, P9, P10, P11) as ColorSlot<B, D>>::spec_color_formats()[4] == P5::spec_pixel_format(),
        <(P1, P2, P3, P4, P5, P6, P7, P8, P9, P10, P11) as ColorSlot<B, D>>::spec_textures(textures)[4] == textures.4.spec_repr(),
        <(P1, P2, P3, P4, P5, P6, P7, P8, P9, P10, P11) as ColorSlot<B, D>>::spec_color_formats()[5] == P6::spec_pixel_format(),
        <(P1, P2, P3, P4, P5, P6, P7, P8, P9, P10, P11) as ColorSlot<B, D>>::spec_textures(textures)[5] == textures.5.spec_repr(),
        <(P1, P2, P3, P4, P5, P6, P7, P8, P9, P10, P11) as ColorSlot<B, D>>::spec_color_formats()[6] == P7::spec_pixel_format(),
        <(P1, P2, P3, P4, P5, P6, P7, P8, P9, P10, P11) as ColorSlot<B, D>>::spec_textures(textures)[6] == textures.6.spec_repr(),
        <(P1, P2, P3, P4, P5, P6, P7, P8, P9, P10, P11) as ColorSlot<B, D>>::spec_color_formats()[7] == P8::spec_pixel_format(),
        <(P1, P2, P3, P4, P5, P6, P7, P8, P9, P10, P11) as ColorSlot<B, D>>::spec_textures(textures)[7] == textures.7.spec_repr(),
        <(P1, P2, P3, P4, P5, P6, P7, P8, P9, P10, P11) as ColorSlot<B, D>>::spec_color_formats()[8] == P9::spec_pixel_format(),
        <(P1, P2, P3, P4, P5, P6, P7, P8, P9, P10, P11) as ColorSlot<B, D>>::spec_textures(textures)[8] == textures.8.spec_repr(),
        <(P1, P2, P3, P4, P5, P6, P7, P8, P9, P10, P11) as ColorSlot<B, D>>::spec_color_formats()[9] == P10::spec_pixel_format(),
        <(P1, P2, P3, P4, P5, P6, P7, P8, P9, P10, P11) as ColorSlot<B, D>>::spec_textures(textures)[9] == textures.9.spec_repr(),
        <(P1, P2, P3, P4, P5, P6, P7, P8, P9, P10, P11) as ColorSlot<B, D>>::spec_color_formats()[10] == P11::spec_pixel_format(),
        <(P1, P2, P3, P4, P5, P6, P7, P8, P9, P10, P11) as ColorSlot<B, D>>::spec_textures(textures)[10] == textures.10.spec_repr(),
{
}

/// A tuple of 12 pixel types as a color slot asks for the pixel formats of its types in order,
/// and its textures are attached in the same order: the `k`-th format is the one of the `k`-th
/// type, whose texture is the `k`-th attached.
pub proof fn law_color_slot_order_12<B, D, P0, P1, P2, P3, P4, P5, P6, P7, P8, P9, P10, P11>(textures: &(Texture<B, D, P0>, Texture<B, D, P1>, Texture<B, D, P2>, Texture<B, D, P3>, Texture<B, D, P4>, Texture<B, D, P5>, Texture<B, D, P6>, Texture<B, D, P7>, Texture<B, D, P8>, Texture<B, D, P9>, Texture<B, D, P10>, Texture<B, D, P11>)) where
    B: ?Sized + Framebuffer<D> + TextureBackend<D, P0> + TextureBackend<D, P1> + TextureBackend<D, P2> + TextureBackend<D, P3> + TextureBackend<D, P4> + TextureBackend<D, P5> + TextureBackend<D, P6> + TextureBackend<D, P7> + TextureBackend<D, P8> + TextureBackend<D, P9> + TextureBackend<D, P10> + TextureBackend<D, P11>,
    D: Dimensionable,
    D::Size: Copy,
    P0: ColorPixel + RenderablePixel,
    P1: ColorPixel + RenderablePixel,
    P2: ColorPixel + RenderablePixel,
    P3: ColorPixel + RenderablePixel,
    P4: ColorPixel + RenderablePixel,
    P5: ColorPixel + RenderablePixel,
    P6: ColorPixel + RenderablePixel,
    P7: ColorPixel + RenderablePixel,
    P8: ColorPixel + RenderablePixel,
    P9: ColorPixel + RenderablePixel,
    P10: ColorPixel + RenderablePixel,
    P11: ColorPixel + RenderablePixel,
    ensures
        <(P0, P1, P2, P3, P4, P5, P6, P7, P8, P9, P10, P11) as ColorSlot<B, D>>::spec_color_formats().len() == 12,
        <(P0, P1, P2, P3, P4, P5, P6, P7, P8, P9, P10, P11) as ColorSlot<B, D>>::spec_textures(textures).len() == 12,
        <(P0, P1, P2, P3, P4, P5, P6, P7, P8, P9, P10, P11) as ColorSlot<B, D>>::spec_color_formats()[0] == P0::spec_pixel_format(),
        <(P0, P1, P2, P3, P4, P5, P6, P7, P8, P9, P10, P11) as ColorSlot<B, D>>::spec_textures(textures)[0] == textures.0.spec_repr(),
        <(P0, P1, P2, P3, P4, P5, P6, P7, P8, P9, P10, P11) as ColorSlot<B, D>>::spec_color_formats()[1] == P1::spec_pixel_format(),
        <(P0, P1, P2, P3, P4, P5, P6, P7, P8, P9, P10, P11) as ColorSlot<B, D>>::spec_textures(textures)[1] == textures.1.spec_repr(),
        <(P0, P1, P2, P3, P4, P5, P6, P7, P8, P9, P10, P11) as ColorSlot<B, D>>::spec_color_formats()[2] == P2::spec_pixel_format(),
        <(P0, P1, P2, P3, P4, P5, P6, P7, P8, P9, P10, P11) as ColorSlot<B, D>>::spec_textures(textures)[2] == textures.2.spec_repr(),
        <(P0, P1, P2, P3, P4, P5, P6, P7, P8, P9, P10, P11) as ColorSlot<B, D>>::spec_color_formats()[3] == P3::spec_pixel_format(),
        <(P0, P1, P2, P3, P4, P5, P6, P7, P8, P9, P10, P11) as ColorSlot<B, D>>::spec_textures(textures)[3] == textures.3.spec_repr(),
        <(P0, P1, P2, P3, P4, P5, P6, P7, P8, P9, P10, P11) as ColorSlot<B, D>>::spec_color_formats()[4] == P4::spec_pixel_format(),
        <(P0, P1, P2, P3, P4, P5, P6, P7, P8, P9, P10, P11) as ColorSlot<B, D>>::spec_textures(textures)[4] == textures.4.spec_repr(),
        <(P0, P1, P2, P3, P4, P5, P6, P7, P8, P9, P10, P11) as ColorSlot<B, D>>::spec_color_formats()[5] == P5::spec_pixel_format(),
        <(P0, P1, P2, P3, P4, P5, P6, P7, P8, P9, P10, P11) as ColorSlot<B, D>>::spec_textures(textures)[5] == textures.5.spec_repr(),
        <(P0, P1, P2, P3, P4, P5, P6, P7, P8, P9, P10, P11) as ColorSlot<B, D>>::spec_color_formats()[6] == P6::spec_pixel_format(),
        <(P0, P1, P2, P3, P4, P5, P6, P7, P8, P9, P10, P11) as ColorSlot<B, D>>::spec_textures(textures)[6] == textures.6.spec_repr(),
        <(P0, P1, P2, P3, P4, P5, P6, P7, P8, P9, P10, P11) as ColorSlot<B, D>>::spec_color_formats()[7] == P7::spec_pixel_format(),
        <(P0, P1, P2, P3, P4, P5, P6, P7, P8, P9, P10, P11) as ColorSlot<B, D>>::spec_textures(textures)[7] == textures.7.spec_repr(),
        <(P0, P1, P2, P3, P4, P5, P6, P7, P8, P9, P10, P11) as ColorSlot<B, D>>::spec_color_formats()[8] == P8::spec_pixel_format(),
        <(P0, P1, P2, P3, P4, P5, P6, P7, P8, P9, P10, P11) as ColorSlot<B, D>>::spec_textures(textures)[8] == textures.8.spec_repr(),
        <(P0, P1, P2, P3, P4, P5, P6, P7, P8, P9, P10, P11) as ColorSlot<B, D>>::spec_color_formats()[9] == P9::spec_pixel_format(),
        <(P0, P1, P2, P3, P4, P5, P6, P7, P8, P9, P10, P11) as ColorSlot<B, D>>::spec_textures(textures)[9] == textures.9.spec_repr(),
        <(P0, P1, P2, P3, P4, P5, P6, P7, P8, P9, P10, P11) as ColorSlot<B, D>>::spec_color_formats()[10] == P10::spec_pixel_format(),
        <(P0, P1, P2, P3, P4, P5, P6, P7, P8, P9, P10, P11) as ColorSlot<B, D>>::spec_textures(textures)[10] == textures.10.spec_repr(),
        <(P0, P1, P2, P3, P4, P5, P6, P7, P8, P9, P10, P11) as ColorSlot<B, D>>::spec_color_formats()[11] == P11::spec_pixel_format(),
        <(P0, P1, P2, P3, P4, P5, P6, P7, P8, P9, P10, P11) as ColorSlot<B, D>>::spec_textures(textures)[11] == textures.11.spec_repr(),
{
}

} // verus!
