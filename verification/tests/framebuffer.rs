use lib::backend::framebuffer::{Framebuffer as FramebufferBackend, FramebufferBackBuffer};
use lib::backend::texture::{Texture as TextureBackend, TextureBase};
use lib::context::GraphicsContext;
use lib::framebuffer::{Framebuffer, FramebufferError, IncompleteReason};
use lib::pixel::{DepthPixel, NormR8UI, Pixel, PixelFormat, R32UI, RG16UI, RGBA8UI};
use lib::texture::{Dim2, Dimensionable, GenMipmaps, Sampler, Texture, TextureError};

/// The body of a specification function: those are read by the verifier, never run.
fn spec_only<T>() -> T {
    panic!("specification functions are only read by the verifier")
}

/// A texture held in host memory.
#[derive(Debug)]
struct Tex {
    mipmaps: usize,
    uploads: usize,
}

/// A framebuffer held in host memory: its size, and what is attached to it.
#[derive(Debug)]
struct Fb {
    size: [u32; 2],
    colors: Vec<usize>,
    depth: bool,
    formats: Vec<PixelFormat>,
}

/// A backend that records what is asked of it.
struct Memory {
    textures_created: usize,
    refuse_textures: bool,
    incomplete: bool,
}

struct Ctx {
    memory: Memory,
}

impl GraphicsContext for Ctx {
    type Backend = Memory;

    fn spec_backend(&self) -> &Memory {
        &self.memory
    }

    fn backend(&mut self) -> &mut Memory {
        &mut self.memory
    }
}

impl TextureBase for Memory {
    type TextureRepr = Tex;

    fn spec_framebuffer_answers(&self) -> vstd::seq::Seq<Option<FramebufferError>> {
        spec_only()
    }
}

impl<D: Dimensionable, P: Pixel> TextureBackend<D, P> for Memory {
    fn spec_mipmaps(_texture: &Tex) -> usize {
        spec_only()
    }

    fn spec_texels(_texture: &Tex) -> vstd::seq::Seq<P::Encoding> {
        spec_only()
    }

    fn spec_raw_texels(_texture: &Tex) -> vstd::seq::Seq<P::RawEncoding> {
        spec_only()
    }

    fn spec_texture_size(_texture: &Tex) -> D::Size {
        spec_only()
    }

    fn spec_sampler(_texture: &Tex) -> Sampler {
        spec_only()
    }

    fn spec_texture_requests(
        &self,
    ) -> vstd::seq::Seq<(D::Size, usize, Sampler, Result<Tex, TextureError>)> {
        spec_only()
    }

    fn new_texture(
        &mut self,
        _size: D::Size,
        mipmaps: usize,
        _sampler: Sampler,
    ) -> Result<Tex, TextureError> {
        if self.refuse_textures {
            return Err(TextureError::texture_storage_creation_failed("full"));
        }
        self.textures_created += 1;
        Ok(Tex {
            mipmaps,
            uploads: 0,
        })
    }

    fn mipmaps(texture: &Tex) -> usize {
        texture.mipmaps
    }

    fn clear_part(
        texture: &mut Tex,
        _gen_mipmaps: GenMipmaps,
        _offset: D::Offset,
        _size: D::Size,
        _pixel: P::Encoding,
    ) -> Result<(), TextureError> {
        texture.uploads += 1;
        Ok(())
    }

    fn clear(
        texture: &mut Tex,
        _gen_mipmaps: GenMipmaps,
        _size: D::Size,
        _pixel: P::Encoding,
    ) -> Result<(), TextureError> {
        texture.uploads += 1;
        Ok(())
    }

    fn upload_part(
        texture: &mut Tex,
        _gen_mipmaps: GenMipmaps,
        _offset: D::Offset,
        _size: D::Size,
        _texels: &[P::Encoding],
    ) -> Result<(), TextureError> {
        texture.uploads += 1;
        Ok(())
    }

    fn upload(
        texture: &mut Tex,
        _gen_mipmaps: GenMipmaps,
        _size: D::Size,
        texels: &[P::Encoding],
    ) -> Result<(), TextureError> {
        if texels.is_empty() {
            return Err(TextureError::not_enough_pixels(1, 0));
        }
        texture.uploads += 1;
        Ok(())
    }

    fn upload_part_raw(
        texture: &mut Tex,
        _gen_mipmaps: GenMipmaps,
        _offset: D::Offset,
        _size: D::Size,
        _texels: &[P::RawEncoding],
    ) -> Result<(), TextureError> {
        texture.uploads += 1;
        Ok(())
    }

    fn upload_raw(
        texture: &mut Tex,
        _gen_mipmaps: GenMipmaps,
        _size: D::Size,
        _texels: &[P::RawEncoding],
    ) -> Result<(), TextureError> {
        texture.uploads += 1;
        Ok(())
    }

    fn get_raw_texels(_texture: &Tex, _size: D::Size) -> Result<Vec<P::RawEncoding>, TextureError>
    where
        P::RawEncoding: Copy + Default,
    {
        Err(TextureError::cannot_retrieve_texels("write only"))
    }
}

impl FramebufferBackend<Dim2> for Memory {
    type FramebufferRepr = Fb;

    fn spec_framebuffer_size(_framebuffer: &Fb) -> [u32; 2] {
        spec_only()
    }

    fn spec_made_with(
        _framebuffer: &Fb,
    ) -> (usize, Sampler, vstd::seq::Seq<PixelFormat>, Option<PixelFormat>) {
        spec_only()
    }

    fn spec_color_attachments(_framebuffer: &Fb) -> vstd::seq::Seq<(usize, Tex)> {
        spec_only()
    }

    fn spec_depth_attachment(_framebuffer: &Fb) -> Option<Tex> {
        spec_only()
    }

    fn spec_refusals(_framebuffer: &Fb) -> vstd::seq::Seq<FramebufferError> {
        spec_only()
    }

    fn spec_incompleteness(_framebuffer: &Fb) -> Option<FramebufferError> {
        spec_only()
    }

    fn new_framebuffer(
        &mut self,
        size: [u32; 2],
        _mipmaps: usize,
        _sampler: &Sampler,
        color_formats: &[PixelFormat],
        _depth_format: Option<PixelFormat>,
    ) -> Result<Fb, FramebufferError> {
        Ok(Fb {
            size,
            colors: Vec::new(),
            depth: false,
            formats: color_formats.to_vec(),
        })
    }

    fn attach_color_texture(
        framebuffer: &mut Fb,
        _texture: &Tex,
        attachment_index: usize,
    ) -> Result<(), FramebufferError> {
        framebuffer.colors.push(attachment_index);
        Ok(())
    }

    fn attach_depth_texture(framebuffer: &mut Fb, _texture: &Tex) -> Result<(), FramebufferError> {
        framebuffer.depth = true;
        Ok(())
    }

    fn validate_framebuffer(framebuffer: Fb) -> Result<Fb, FramebufferError> {
        Ok(framebuffer)
    }

    fn framebuffer_size(framebuffer: &Fb) -> [u32; 2] {
        framebuffer.size
    }
}

impl FramebufferBackBuffer for Memory {
    fn back_buffer(&mut self, size: [u32; 2]) -> Result<Fb, FramebufferError> {
        if self.incomplete {
            return Err(FramebufferError::incomplete(IncompleteReason::Undefined));
        }
        Ok(Fb {
            size,
            colors: Vec::new(),
            depth: false,
            formats: Vec::new(),
        })
    }
}

fn ctx() -> Ctx {
    Ctx {
        memory: Memory {
            textures_created: 0,
            refuse_textures: false,
            incomplete: false,
        },
    }
}

#[test]
fn texture_keeps_its_size_and_mipmaps() {
    let mut ctx = ctx();
    let mut texture: Texture<Memory, Dim2, RGBA8UI> =
        Texture::new(&mut ctx, [4, 2], 3, Sampler::default()).unwrap();
    assert_eq!(texture.size(), [4, 2]);
    assert_eq!(texture.mipmaps(), 3);
    assert_eq!(texture.clear(GenMipmaps::No, (0, 0, 0, 0)), Ok(()));
    assert_eq!(texture.upload(GenMipmaps::Yes, &[(1, 2, 3, 4)]), Ok(()));
    assert_eq!(
        texture.upload(GenMipmaps::Yes, &[]),
        Err(TextureError::NotEnoughPixels {
            expected_bytes: 1,
            provided_bytes: 0
        })
    );
    assert_eq!(texture.upload_raw(GenMipmaps::No, &[1, 2, 3, 4]), Ok(()));
    assert_eq!(
        texture.upload_part(GenMipmaps::No, [1, 1], [1, 1], &[(0, 0, 0, 0)]),
        Ok(())
    );
    assert_eq!(texture.upload_part_raw(GenMipmaps::No, [0, 0], [1, 1], &[9, 9, 9, 9]), Ok(()));
    assert_eq!(texture.clear_part(GenMipmaps::No, [0, 0], [2, 2], (1, 1, 1, 1)), Ok(()));
    assert_eq!(texture.size(), [4, 2]);
    assert_eq!(texture.mipmaps(), 3);
    assert!(texture.get_raw_texels().is_err());
}

#[test]
fn texture_through_the_context() {
    let mut ctx = ctx();
    let texture: Texture<Memory, Dim2, R32UI> =
        ctx.new_texture([8, 8], 0, Sampler::default()).unwrap();
    assert_eq!(texture.size(), [8, 8]);
    assert_eq!(texture.mipmaps(), 0);
    assert_eq!(ctx.memory.textures_created, 1);
}

#[test]
fn failed_texture_creation() {
    let mut ctx = ctx();
    ctx.memory.refuse_textures = true;
    let r: Result<Texture<Memory, Dim2, R32UI>, _> = Texture::new(&mut ctx, [1, 1], 0, Sampler::default());
    assert_eq!(
        r.err(),
        Some(TextureError::TextureStorageCreationFailed("full".to_owned()))
    );
}

#[test]
fn color_slots_attach_in_order() {
    let mut ctx = ctx();
    let mut fb: Framebuffer<Memory, Dim2, (RGBA8UI, RG16UI, NormR8UI), ()> =
        Framebuffer::new(&mut ctx, [16, 8], 1, Sampler::default()).unwrap();
    assert_eq!(fb.size(), [16, 8]);
    assert_eq!(fb.repr().colors, vec![0, 1, 2]);
    assert!(!fb.repr().depth);
    assert_eq!(
        fb.repr().formats,
        vec![
            RGBA8UI::pixel_format(),
            RG16UI::pixel_format(),
            NormR8UI::pixel_format()
        ]
    );
    assert_eq!(ctx.memory.textures_created, 3);
    let (a, b, c) = fb.color_slot();
    assert_eq!(a.size(), [16, 8]);
    assert_eq!(b.size(), [16, 8]);
    assert_eq!(c.mipmaps(), 1);
}

/// A depth format of the tests' own.
struct Depth24;

impl Pixel for Depth24 {
    type Encoding = u32;
    type RawEncoding = u32;
    type SamplerType = lib::pixel::Unsigned;

    fn spec_pixel_format() -> PixelFormat {
        Self::pixel_format()
    }

    fn pixel_format() -> PixelFormat {
        PixelFormat {
            encoding: lib::pixel::Type::Unsigned,
            format: lib::pixel::Format::Depth(lib::pixel::Size::ThirtyTwo),
        }
    }
}

impl DepthPixel for Depth24 {}

#[test]
fn single_color_slot_with_depth() {
    let mut ctx = ctx();
    let mut fb: Framebuffer<Memory, Dim2, R32UI, Depth24> =
        Framebuffer::new(&mut ctx, [2, 3], 0, Sampler::default()).unwrap();
    assert_eq!(fb.repr().colors, vec![0]);
    assert!(fb.repr().depth);
    assert_eq!(fb.depth_slot().size(), [2, 3]);
    assert_eq!(fb.color_slot().size(), [2, 3]);
    let (color, depth) = fb.into_slots();
    assert_eq!(color.mipmaps(), 0);
    assert_eq!(depth.size(), [2, 3]);
    assert_eq!(ctx.memory.textures_created, 2);
}

#[test]
fn framebuffer_through_the_context() {
    let mut ctx = ctx();
    let fb: Framebuffer<Memory, Dim2, (R32UI, RGBA8UI), Depth24> =
        ctx.new_framebuffer([7, 9], 2, Sampler::default()).unwrap();
    assert_eq!(fb.size(), [7, 9]);
    assert_eq!(fb.repr().colors, vec![0, 1]);
    assert!(fb.repr().depth);
    let (colors, depth) = fb.into_slots();
    assert_eq!(colors.0.size(), [7, 9]);
    assert_eq!(colors.1.mipmaps(), 2);
    assert_eq!(depth.mipmaps(), 2);
}

#[test]
fn no_color_slot() {
    let mut ctx = ctx();
    let fb: Framebuffer<Memory, Dim2, (), ()> =
        Framebuffer::new(&mut ctx, [5, 5], 0, Sampler::default()).unwrap();
    assert!(fb.repr().colors.is_empty());
    assert!(!fb.repr().depth);
    assert_eq!(fb.size(), [5, 5]);
    assert_eq!(ctx.memory.textures_created, 0);
    fb.into_color_slot();
}

#[test]
fn failing_color_texture_fails_the_framebuffer() {
    let mut ctx = ctx();
    ctx.memory.refuse_textures = true;
    let r: Result<Framebuffer<Memory, Dim2, (R32UI, R32UI), ()>, _> =
        Framebuffer::new(&mut ctx, [1, 1], 0, Sampler::default());
    assert_eq!(
        r.err(),
        Some(FramebufferError::TextureError(
            TextureError::TextureStorageCreationFailed("full".to_owned())
        ))
    );
}

#[test]
fn back_buffer_has_the_asked_size() {
    let mut ctx = ctx();
    let fb = Framebuffer::back_buffer(&mut ctx, [800, 600]).unwrap();
    assert_eq!(fb.size(), [800, 600]);
    fb.into_depth_slot();
    ctx.memory.incomplete = true;
    assert_eq!(
        Framebuffer::back_buffer(&mut ctx, [1, 1]).err(),
        Some(FramebufferError::Incomplete(IncompleteReason::Undefined))
    );
}
