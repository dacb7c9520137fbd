//! GPU textures.
//!
//! A GPU texture is an object that can be perceived as an array on the GPU. It holds several items
//! and is a dimensional object. Textures are often associated with _images_, even though their
//! usage in the graphics world can be much larger than that.
//!
//! Textures come in several flavors and the differences lie in:
//!
//! - The dimensionality: textures can be 1D, 2D, 3D, layered, cube maps, etc.
//! - The encoding: the _items_ inside textures are called _pixels_ or _texels_. Those can be
//!   encoded in several ways.
//! - The usage: some textures will be used as images, others will be used to pass arbitrary data
//!   around in shaders, etc.
//!
//! When a shader wants to use a texture, it can do it directly, by accessing each pixel by their
//! position inside the texture or via the use of a [`Sampler`], which tells the GPU how fetching
//! (sampling) a texture should occur.
use vstd::prelude::*;
use std::marker::PhantomData;
use crate::backend::texture::Texture as TextureBackend;
use crate::context::GraphicsContext;
use crate::depth_test::DepthComparison;
use crate::pixel::Pixel;
use crate::pixel::PixelFormat;
use crate::text::{decimal, push_decimal};

verus! {

/// How to wrap texture coordinates while sampling textures?
#[derive(Clone, Copy, Debug, PartialEq, Eq, Structural)]
pub enum Wrap {
    /// If textures coordinates lay outside of *[0;1]*, they will be clamped to either *0* or *1* for
    /// every components.
    ClampToEdge,
    /// Textures coordinates are repeated if they lay outside of *[0;1]*: each coordinate is replaced
    /// by its fractional part, which is always between *[0;1]*.
    Repeat,
    /// Same as `Repeat` but it will alternatively repeat between *[0;1]* and *[1;0]*.
    MirroredRepeat,
}

/// Minification filter.
#[derive(Clone, Copy, Debug, PartialEq, Eq, Structural)]
pub enum MinFilter {
    /// Nearest interpolation.
    Nearest,
    /// Linear interpolation between surrounding pixels.
    Linear,
    /// This filter will select the nearest mipmap between two samples and will perform a nearest
    /// interpolation afterwards.
    NearestMipmapNearest,
    /// This filter will select the nearest mipmap between two samples and will perform a linear
    /// interpolation afterwards.
    NearestMipmapLinear,
    /// This filter will linearly interpolate between two mipmaps, which selected texels would have
    /// been interpolated with a nearest filter.
    LinearMipmapNearest,
    /// This filter will linearly interpolate between two mipmaps, which selected texels would have
    /// been linarily interpolated as well.
    LinearMipmapLinear,
}

/// Magnification filter.
#[derive(Clone, Copy, Debug, PartialEq, Eq, Structural)]
pub enum MagFilter {
    /// Nearest interpolation.
    Nearest,
    /// Linear interpolation between surrounding pixels.
    Linear,
}

/// Reify a type into a [`Dim`].
pub trait Dimensionable {
    /// Size type of a dimension (used to caracterize dimensions’ areas).
    type Size;

    /// Offset type of a dimension (used to caracterize addition and subtraction of sizes, mostly).
    type Offset;

    /// Zero offset.
    const ZERO_OFFSET: Self::Offset;

    /// Amount of pixels a size represents, as a mathematical integer.
    spec fn spec_count(size: Self::Size) -> nat;

    /// The width of a size.
    spec fn spec_width(size: Self::Size) -> u32;

    /// The height of a size, `1` where it has none.
    spec fn spec_height(size: Self::Size) -> u32;

    /// The depth of a size, `1` where it has none.
    spec fn spec_depth(size: Self::Size) -> u32;

    /// Whether the amount of pixels of a size, and each partial product computing it, fit in a
    /// `usize`.
    spec fn count_fits(size: Self::Size) -> bool;

    /// The place, among the texels of a texture of size `texture` in row-major order (x first,
    /// then y, then z or the layer), of the `j`-th texel, in the same order, of the part of size
    /// `region` at `offset`.
    spec fn spec_region_index(texture: Self::Size, offset: Self::Offset, region: Self::Size, j: int) -> int;

    /// Dimension.
    fn dim() -> Dim;

    /// Width of the associated [`Dimensionable::Size`].
    fn width(size: Self::Size) -> (r: u32)
        ensures
            r == Self::spec_width(size),
    ;

    /// Height of the associated [`Dimensionable::Size`]. If it doesn’t have one, set it to 1.
    fn height(size: Self::Size) -> (r: u32)
        ensures
            r == Self::spec_height(size),
    ;

    /// Depth of the associated [`Dimensionable::Size`]. If it doesn’t have one, set it to 1.
    fn depth(size: Self::Size) -> (r: u32)
        ensures
            r == Self::spec_depth(size),
    ;

    /// X offset.
    fn x_offset(offset: Self::Offset) -> u32;

    /// Y offset. If it doesn’t have one, set it to 0.
    fn y_offset(offset: Self::Offset) -> u32 {
        1
    }

    /// Z offset. If it doesn’t have one, set it to 0.
    fn z_offset(offset: Self::Offset) -> u32 {
        1
    }

    /// Amount of pixels this size represents.
    ///
    /// For 2D sizes, it represents the area; for 3D sizes, the volume; etc.
    /// For cubemaps, it represents the side length of the cube.
    fn count(size: Self::Size) -> (r: usize)
        requires
            Self::count_fits(size),
        ensures
            r == Self::spec_count(size),
    ;
}

/// Dimension of a texture.
#[derive(Clone, Copy, Debug, PartialEq, Eq, Structural)]
pub enum Dim {
    /// 1D.
    Dim1,
    /// 2D.
    Dim2,
    /// 3D.
    Dim3,
    /// Cubemap (i.e. a cube defining 6 faces — akin to 4D).
    Cubemap,
    /// 1D array.
    Dim1Array,
    /// 2D array.
    Dim2Array,
}

impl Dim {
    /// The human-readable name of the dimension.
    pub open spec fn spec_text(self) -> Seq<char> {
        match self {
            Dim::Dim1 => "1D"@,
            Dim::Dim2 => "2D"@,
            Dim::Dim3 => "3D"@,
            Dim::Cubemap => "cubemap"@,
            Dim::Dim1Array => "1D array"@,
            Dim::Dim2Array => "2D array"@,
        }
    }

    /// The human-readable name of the dimension.
    pub fn to_string(&self) -> (r: String)
        ensures
            r@ == self.spec_text(),
    {
        match self {
            Dim::Dim1 => String::from_str("1D"),
            Dim::Dim2 => String::from_str("2D"),
            Dim::Dim3 => String::from_str("3D"),
            Dim::Cubemap => String::from_str("cubemap"),
            Dim::Dim1Array => String::from_str("1D array"),
            Dim::Dim2Array => String::from_str("2D array"),
        }
    }
}

/// 1D dimension.
#[derive(Clone, Copy, Debug)]
pub struct Dim1;

impl Dimensionable for Dim1 {
    type Offset = u32;

    type Size = u32;

    const ZERO_OFFSET: Self::Offset = 0;

    open spec fn spec_count(size: Self::Size) -> nat {
        size as nat
    }

    open spec fn count_fits(size: Self::Size) -> bool {
        size as nat <= usize::MAX
    }

    open spec fn spec_width(size: u32) -> u32 {
        size
    }

    open spec fn spec_height(size: u32) -> u32 {
        1u32
    }

    open spec fn spec_depth(size: u32) -> u32 {
        1u32
    }

    open spec fn spec_region_index(texture: u32, offset: u32, region: u32, j: int) -> int {
        offset + j
    }

    fn dim() -> (r: Dim)
        ensures
            r == Dim::Dim1,
    {
        Dim::Dim1
    }

    fn width(w: Self::Size) -> (r: u32)
        ensures
            r == w,
    {
        w
    }

    fn height(size: Self::Size) -> (r: u32)
        ensures
            r == 1,
    {
        1
    }

    fn depth(size: Self::Size) -> (r: u32)
        ensures
            r == 1,
    {
        1
    }

    fn x_offset(off: Self::Offset) -> (r: u32)
        ensures
            r == off,
    {
        off
    }

    fn y_offset(off: Self::Offset) -> (r: u32)
        ensures
            r == 1,
    {
        1
    }

    fn z_offset(off: Self::Offset) -> (r: u32)
        ensures
            r == 1,
    {
        1
    }

    fn count(size: Self::Size) -> (r: usize) {
        size as usize
    }
}

/// 2D dimension.
#[derive(Clone, Copy, Debug)]
pub struct Dim2;

impl Dimensionable for Dim2 {
    type Offset = [u32; 2];

    type Size = [u32; 2];

    const ZERO_OFFSET: Self::Offset = [0, 0];

    open spec fn spec_count(size: Self::Size) -> nat {
        (size[0] * size[1]) as nat
    }

    open spec fn count_fits(size: Self::Size) -> bool {
        size[0] * size[1] <= usize::MAX
    }

    open spec fn spec_width(size: [u32; 2]) -> u32 {
        size[0]
    }

    open spec fn spec_height(size: [u32; 2]) -> u32 {
        size[1]
    }

    open spec fn spec_depth(size: [u32; 2]) -> u32 {
        1u32
    }

    open spec fn spec_region_index(texture: [u32; 2], offset: [u32; 2], region: [u32; 2], j: int) -> int {
        (offset[1] + j / (region[0] as int)) * texture[0] + offset[0] + j % (region[0] as int)
    }

    fn dim() -> (r: Dim)
        ensures
            r == Dim::Dim2,
    {
        Dim::Dim2
    }

    fn width(size: Self::Size) -> (r: u32)
        ensures
            r == size[0],
    {
        size[0]
    }

    fn height(size: Self::Size) -> (r: u32)
        ensures
            r == size[1],
    {
        size[1]
    }

    fn depth(size: Self::Size) -> (r: u32)
        ensures
            r == 1,
    {
        1
    }

    fn x_offset(off: Self::Offset) -> (r: u32)
        ensures
            r == off[0],
    {
        off[0]
    }

    fn y_offset(off: Self::Offset) -> (r: u32)
        ensures
            r == off[1],
    {
        off[1]
    }

    fn z_offset(off: Self::Offset) -> (r: u32)
        ensures
            r == 1,
    {
        1
    }

    fn count(size: Self::Size) -> (r: usize) {
        let width = size[0];
        let height = size[1];
        width as usize * height as usize
    }
}

/// 3D dimension.
#[derive(Clone, Copy, Debug)]
pub struct Dim3;

impl Dimensionable for Dim3 {
    type Offset = [u32; 3];

    type Size = [u32; 3];

    const ZERO_OFFSET: Self::Offset = [0, 0, 0];

    open spec fn spec_count(size: Self::Size) -> nat {
        (size[0] * size[1] * size[2]) as nat
    }

    open spec fn count_fits(size: Self::Size) -> bool {
        size[0] * size[1] <= usize::MAX && size[0] * size[1] * size[2]
            <= usize::MAX
    }

    open spec fn spec_width(size: [u32; 3]) -> u32 {
        size[0]
    }

    open spec fn spec_height(size: [u32; 3]) -> u32 {
        size[1]
    }

    open spec fn spec_depth(size: [u32; 3]) -> u32 {
        size[2]
    }

    open spec fn spec_region_index(texture: [u32; 3], offset: [u32; 3], region: [u32; 3], j: int) -> int {
        let plane = region[0] * region[1];
        let z = offset[2] + j / plane;
        let y = offset[1] + (j % plane) / (region[0] as int);
        let x = offset[0] + (j % plane) % (region[0] as int);
        (z * texture[1] + y) * texture[0] + x
    }

    fn dim() -> (r: Dim)
        ensures
            r == Dim::Dim3,
    {
        Dim::Dim3
    }

    fn width(size: Self::Size) -> (r: u32)
        ensures
            r == size[0],
    {
        size[0]
    }

    fn height(size: Self::Size) -> (r: u32)
        ensures
            r == size[1],
    {
        size[1]
    }

    fn depth(size: Self::Size) -> (r: u32)
        ensures
            r == size[2],
    {
        size[2]
    }

    fn x_offset(off: Self::Offset) -> (r: u32)
        ensures
            r == off[0],
    {
        off[0]
    }

    fn y_offset(off: Self::Offset) -> (r: u32)
        ensures
            r == off[1],
    {
        off[1]
    }

    fn z_offset(off: Self::Offset) -> (r: u32)
        ensures
            r == off[2],
    {
        off[2]
    }

    fn count(size: Self::Size) -> (r: usize) {
        let width = size[0] as usize;
        let height = size[1] as usize;
        let depth = size[2] as usize;
        width * height * depth
    }
}

/// Cubemap dimension.
#[derive(Clone, Copy, Debug)]
pub struct Cubemap;

impl Dimensionable for Cubemap {
    type Offset = ([u32; 2], CubeFace);

    type Size = u32;

    const ZERO_OFFSET: Self::Offset = ([0, 0], CubeFace::PositiveX);

    open spec fn spec_count(size: Self::Size) -> nat {
        (size * size) as nat
    }

    open spec fn count_fits(size: Self::Size) -> bool {
        size * size <= usize::MAX
    }

    open spec fn spec_width(size: u32) -> u32 {
        size
    }

    open spec fn spec_height(size: u32) -> u32 {
        size
    }

    open spec fn spec_depth(size: u32) -> u32 {
        6u32
    }

    open spec fn spec_region_index(texture: u32, offset: ([u32; 2], CubeFace), region: u32, j: int) -> int {
        let y = offset.0[1] + j / (region as int);
        let x = offset.0[0] + j % (region as int);
        (offset.1.spec_index() * texture + y) * texture + x
    }

    fn dim() -> (r: Dim)
        ensures
            r == Dim::Cubemap,
    {
        Dim::Cubemap
    }

    fn width(s: Self::Size) -> (r: u32)
        ensures
            r == s,
    {
        s
    }

    fn height(s: Self::Size) -> (r: u32)
        ensures
            r == s,
    {
        s
    }

    fn depth(s: Self::Size) -> (r: u32)
        ensures
            r == 6,
    {
        6
    }

    fn x_offset(off: Self::Offset) -> (r: u32)
        ensures
            r == off.0[0],
    {
        off.0[0]
    }

    fn y_offset(off: Self::Offset) -> (r: u32)
        ensures
            r == off.0[1],
    {
        off.0[1]
    }

    fn z_offset(off: Self::Offset) -> (r: u32)
        ensures
            r == off.1.spec_index(),
    {
        match off.1 {
            CubeFace::PositiveX => 0,
            CubeFace::NegativeX => 1,
            CubeFace::PositiveY => 2,
            CubeFace::NegativeY => 3,
            CubeFace::PositiveZ => 4,
            CubeFace::NegativeZ => 5,
        }
    }

    fn count(size: Self::Size) -> (r: usize) {
        let size = size as usize;
        size * size
    }
}

/// Faces of a cubemap.
#[derive(Clone, Copy, Debug, PartialEq, Eq, Structural)]
pub enum CubeFace {
    /// The +X face of the cube.
    PositiveX,
    /// The -X face of the cube.
    NegativeX,
    /// The +Y face of the cube.
    PositiveY,
    /// The -Y face of the cube.
    NegativeY,
    /// The +Z face of the cube.
    PositiveZ,
    /// The -Z face of the cube.
    NegativeZ,
}

impl CubeFace {
    /// Layer of the face in a cubemap: +X, -X, +Y, -Y, +Z and -Z are the layers 0 to 5.
    pub open spec fn spec_index(self) -> u32 {
        match self {
            CubeFace::PositiveX => 0,
            CubeFace::NegativeX => 1,
            CubeFace::PositiveY => 2,
            CubeFace::NegativeY => 3,
            CubeFace::PositiveZ => 4,
            CubeFace::NegativeZ => 5,
        }
    }
}

/// 1D array dimension.
#[derive(Clone, Copy, Debug)]
pub struct Dim1Array;

impl Dimensionable for Dim1Array {
    type Offset = (u32, u32);

    type Size = (u32, u32);

    const ZERO_OFFSET: Self::Offset = (0, 0);

    open spec fn spec_count(size: Self::Size) -> nat {
        (size.0 * size.1) as nat
    }

    open spec fn count_fits(size: Self::Size) -> bool {
        size.0 * size.1 <= usize::MAX
    }

    open spec fn spec_width(size: (u32, u32)) -> u32 {
        size.0
    }

    open spec fn spec_height(size: (u32, u32)) -> u32 {
        size.1
    }

    open spec fn spec_depth(size: (u32, u32)) -> u32 {
        1u32
    }

    open spec fn spec_region_index(texture: (u32, u32), offset: (u32, u32), region: (u32, u32), j: int) -> int {
        (offset.1 + j / (region.0 as int)) * texture.0 + offset.0 + j % (region.0 as int)
    }

    fn dim() -> (r: Dim)
        ensures
            r == Dim::Dim1Array,
    {
        Dim::Dim1Array
    }

    fn width(size: Self::Size) -> (r: u32)
        ensures
            r == size.0,
    {
        size.0
    }

    fn height(size: Self::Size) -> (r: u32)
        ensures
            r == size.1,
    {
        size.1
    }

    fn depth(size: Self::Size) -> (r: u32)
        ensures
            r == 1,
    {
        1
    }

    fn x_offset(off: Self::Offset) -> (r: u32)
        ensures
            r == off.0,
    {
        off.0
    }

    fn y_offset(off: Self::Offset) -> (r: u32)
        ensures
            r == off.1,
    {
        off.1
    }

    fn z_offset(off: Self::Offset) -> (r: u32)
        ensures
            r == 1,
    {
        1
    }

    fn count(size: Self::Size) -> (r: usize) {
        let (width, layer) = size;
        width as usize * layer as usize
    }
}

/// 2D dimension.
#[derive(Clone, Copy, Debug)]
pub struct Dim2Array;

impl Dimensionable for Dim2Array {
    type Offset = ([u32; 2], u32);

    type Size = ([u32; 2], u32);

    const ZERO_OFFSET: Self::Offset = ([0, 0], 0);

    open spec fn spec_count(size: Self::Size) -> nat {
        (size.0[0] * size.0[1] * size.1) as nat
    }

    open spec fn count_fits(size: Self::Size) -> bool {
        size.0[0] * size.0[1] <= usize::MAX && size.0[0] * size.0[1] * size.1
            <= usize::MAX
    }

    open spec fn spec_width(size: ([u32; 2], u32)) -> u32 {
        size.0[0]
    }

    open spec fn spec_height(size: ([u32; 2], u32)) -> u32 {
        size.0[1]
    }

    open spec fn spec_depth(size: ([u32; 2], u32)) -> u32 {
        size.1
    }

    open spec fn spec_region_index(
        texture: ([u32; 2], u32),
        offset: ([u32; 2], u32),
        region: ([u32; 2], u32),
        j: int,
    ) -> int {
        let plane = region.0[0] * region.0[1];
        let z = offset.1 + j / plane;
        let y = offset.0[1] + (j % plane) / (region.0[0] as int);
        let x = offset.0[0] + (j % plane) % (region.0[0] as int);
        (z * texture.0[1] + y) * texture.0[0] + x
    }

    fn dim() -> (r: Dim)
        ensures
            r == Dim::Dim2Array,
    {
        Dim::Dim2Array
    }

    fn width(size: Self::Size) -> (r: u32)
        ensures
            r == size.0[0],
    {
        size.0[0]
    }

    fn height(size: Self::Size) -> (r: u32)
        ensures
            r == size.0[1],
    {
        size.0[1]
    }

    fn depth(size: Self::Size) -> (r: u32)
        ensures
            r == size.1,
    {
        size.1
    }

    fn x_offset(off: Self::Offset) -> (r: u32)
        ensures
            r == off.0[0],
    {
        off.0[0]
    }

    fn y_offset(off: Self::Offset) -> (r: u32)
        ensures
            r == off.0[1],
    {
        off.0[1]
    }

    fn z_offset(off: Self::Offset) -> (r: u32)
        ensures
            r == off.1,
    {
        off.1
    }

    fn count(size: Self::Size) -> (r: usize) {
        let width = size.0[0] as usize;
        let height = size.0[1] as usize;
        let layer = size.1 as usize;
        width * height * layer
    }
}

/// A `Sampler` object gives hint on how a `Texture` should be sampled.
#[derive(Clone, Copy, Debug, PartialEq, Eq, Structural)]
pub struct Sampler {
    /// How should we wrap around the *r* sampling coordinate?
    pub wrap_r: Wrap,
    /// How should we wrap around the *s* sampling coordinate?
    pub wrap_s: Wrap,
    /// How should we wrap around the *t* sampling coordinate?
    pub wrap_t: Wrap,
    /// Minification filter.
    pub min_filter: MinFilter,
    /// Magnification filter.
    pub mag_filter: MagFilter,
    /// For depth textures, should we perform depth comparison and if so, how?
    pub depth_comparison: Option<DepthComparison>,
}

/// Default value is:
///
/// - [`wrap_r`]: [`Wrap::ClampToEdge`].
/// - [`wrap_s`]: [`Wrap::ClampToEdge`].
/// - [`wrap_t`]: [`Wrap::ClampToEdge`].
/// - [`min_filter`]: [`MinFilter::NearestMipmapLinear`].
/// - [`mag_filter`]: [`MagFilter::Linear`].
/// - [`depth_comparison`]: `None`.
///
/// [`wrap_r`]: crate::texture::Sampler::wrap_r
/// [`wrap_s`]: crate::texture::Sampler::wrap_s
/// [`wrap_t`]: crate::texture::Sampler::wrap_t
/// [`min_filter`]: crate::texture::Sampler::min_filter
/// [`mag_filter`]: crate::texture::Sampler::mag_filter
/// [`depth_comparison`]: crate::texture::Sampler::depth_comparison
impl Default for Sampler {
    fn default() -> (r: Self)
        ensures
            r == (Sampler {
                wrap_r: Wrap::ClampToEdge,
                wrap_s: Wrap::ClampToEdge,
                wrap_t: Wrap::ClampToEdge,
                min_filter: MinFilter::NearestMipmapLinear,
                mag_filter: MagFilter::Linear,
                depth_comparison: None,
            }),
    {
        Sampler {
            wrap_r: Wrap::ClampToEdge,
            wrap_s: Wrap::ClampToEdge,
            wrap_t: Wrap::ClampToEdge,
            min_filter: MinFilter::NearestMipmapLinear,
            mag_filter: MagFilter::Linear,
            depth_comparison: None,
        }
    }
}

/// Whether mipmaps should be generated.
#[derive(Clone, Copy, Debug, PartialEq, Eq, Structural, Hash)]
pub enum GenMipmaps {
    /// Mipmaps should be generated.
    ///
    /// Mipmaps are generated when creating textures but also when uploading texels, clearing, etc.
    Yes,
    /// Never generate mipmaps.
    No,
}

/// Errors that might happen when working with textures.
#[non_exhaustive]
#[derive(Clone, Debug, PartialEq, Eq)]
pub enum TextureError {
    /// A texture’s storage failed to be created.
    ///
    /// The carried [`String`] gives the reason of the failure.
    TextureStorageCreationFailed(String),
    /// Not enough pixel data provided for the given area asked.
    ///
    /// You must provide at least as many pixels as expected by the area in the texture you’re
    /// uploading to.
    NotEnoughPixels {
        /// Expected number of pixels in bytes.
        expected_bytes: usize,
        /// Provided number of pixels in bytes.
        provided_bytes: usize,
    },
    /// Unsupported pixel format.
    ///
    /// Sometimes, some hardware might not support a given pixel format (or the format exists on
    /// the interface side but doesn’t in the implementation). That error represents such a case.
    UnsupportedPixelFormat(PixelFormat),
    /// Cannot retrieve texels from a texture.
    ///
    /// That error might happen on some hardware implementations if the user tries to retrieve
    /// texels from a texture that doesn’t support getting its texels retrieved.
    CannotRetrieveTexels(String),
    /// Failed to upload texels.
    CannotUploadTexels(String),
}

impl TextureError {
    /// A texture’s storage failed to be created.
    pub fn texture_storage_creation_failed<R>(reason: R) -> (r: Self) where R: Into<String>
        ensures
            r matches TextureError::TextureStorageCreationFailed(s) && call_ensures(
                R::into,
                (reason,),
                s,
            ),
    {
        TextureError::TextureStorageCreationFailed(reason.into())
    }

    /// Not enough pixel data provided for the given area asked.
    pub fn not_enough_pixels(expected_bytes: usize, provided_bytes: usize) -> (r: Self)
        ensures
            r == (TextureError::NotEnoughPixels { expected_bytes, provided_bytes }),
    {
        TextureError::NotEnoughPixels { expected_bytes, provided_bytes }
    }

    /// Unsupported pixel format.
    pub fn unsupported_pixel_format(pf: PixelFormat) -> (r: Self)
        ensures
            r == TextureError::UnsupportedPixelFormat(pf),
    {
        TextureError::UnsupportedPixelFormat(pf)
    }

    /// Cannot retrieve texels from a texture.
    pub fn cannot_retrieve_texels<R>(reason: R) -> (r: Self) where R: Into<String>
        ensures
            r matches TextureError::CannotRetrieveTexels(s) && call_ensures(R::into, (reason,), s),
    {
        TextureError::CannotRetrieveTexels(reason.into())
    }

    /// Failed to upload texels.
    pub fn cannot_upload_texels<R>(reason: R) -> (r: Self) where R: Into<String>
        ensures
            r matches TextureError::CannotUploadTexels(s) && call_ensures(R::into, (reason,), s),
    {
        TextureError::CannotUploadTexels(reason.into())
    }

    /// The human-readable message of the error.
    pub open spec fn spec_text(self) -> Seq<char> {
        match self {
            TextureError::TextureStorageCreationFailed(e) => "texture storage creation failed: "@
                + e@,
            TextureError::NotEnoughPixels { expected_bytes, provided_bytes } =>
                "not enough texels provided: expected "@ + decimal(expected_bytes as nat)
                + " bytes, provided "@ + decimal(provided_bytes as nat) + " bytes"@,
            TextureError::UnsupportedPixelFormat(pf) => "unsupported pixel format: "@
                + pf.spec_debug_text(),
            TextureError::CannotRetrieveTexels(e) => "cannot retrieve texture\u{2019}s texels: "@
                + e@,
            TextureError::CannotUploadTexels(e) => "cannot upload texels to texture: "@ + e@,
        }
    }

    /// The human-readable message of the error.
    pub fn to_string(&self) -> (r: String)
        ensures
            r@ == self.spec_text(),
    {
        match self {
            TextureError::TextureStorageCreationFailed(e) => {
                let mut s = String::from_str("texture storage creation failed: ");
                s.append(e.as_str());
                s
            },
            TextureError::NotEnoughPixels { expected_bytes, provided_bytes } => {
                let mut s = String::from_str("not enough texels provided: expected ");
                push_decimal(&mut s, *expected_bytes);
                s.append(" bytes, provided ");
                push_decimal(&mut s, *provided_bytes);
                s.append(" bytes");
                s
            },
            TextureError::UnsupportedPixelFormat(pf) => {
                let mut s = String::from_str("unsupported pixel format: ");
                let t = pf.debug_text();
                s.append(t.as_str());
                s
            },
            TextureError::CannotRetrieveTexels(e) => {
                let mut s = String::from_str("cannot retrieve texture\u{2019}s texels: ");
                s.append(e.as_str());
                s
            },
            TextureError::CannotUploadTexels(e) => {
                let mut s = String::from_str("cannot upload texels to texture: ");
                s.append(e.as_str());
                s
            },
        }
    }
}

/// Whether the texels `after` are the texels `before` of a texture of size `texture` with the
/// part of size `region` at `offset` set, its `j`-th texel to `values(j)`, and every texel outside
/// the part kept.
pub open spec fn spec_region_written<D, T>(
    before: Seq<T>,
    after: Seq<T>,
    texture: D::Size,
    offset: D::Offset,
    region: D::Size,
    values: spec_fn(int) -> T,
) -> bool where D: Dimensionable {
    &&& after.len() == before.len()
    &&& forall|j: int|
        0 <= j < D::spec_count(region) ==> after[#[trigger] D::spec_region_index(
            texture,
            offset,
            region,
            j,
        )] == values(j)
    &&& forall|i: int|
        0 <= i < before.len() && !(exists|j: int|
            0 <= j < D::spec_count(region) && #[trigger] D::spec_region_index(texture, offset, region, j)
                == i) ==> after[i] == before[i]
}

/// GPU textures.
pub struct Texture<B, D, P> where B: ?Sized + TextureBackend<D, P>, D: Dimensionable, P: Pixel {
    pub(crate) repr: B::TextureRepr,
    pub(crate) size: D::Size,
    pub(crate) _phantom: PhantomData<P>,
}

impl<B, D, P> Texture<B, D, P> where
    B: ?Sized + TextureBackend<D, P>,
    D: Dimensionable,
    P: Pixel,
    D::Size: Copy,
 {
    /// The size the texture was created with.
    pub closed spec fn spec_size(&self) -> D::Size {
        self.size
    }

    /// The backend representation of the texture.
    pub closed spec fn spec_repr(&self) -> B::TextureRepr {
        self.repr
    }

    /// The sampler the texture was created with.
    pub open spec fn spec_sampler(&self) -> Sampler {
        B::spec_sampler(&self.spec_repr())
    }

    /// What the backend answered when it was asked for a texture: the representation of `r`, or
    /// its error.
    pub open spec fn spec_answer(r: Result<Self, TextureError>) -> Result<B::TextureRepr, TextureError> {
        match r {
            Ok(t) => Ok(t.spec_repr()),
            Err(e) => Err(e),
        }
    }

    /// The textures asked of `backend` so far, with the answers.
    pub open spec fn spec_requests(backend: &B) -> Seq<
        (D::Size, usize, Sampler, Result<B::TextureRepr, TextureError>),
    > {
        <B as TextureBackend<D, P>>::spec_texture_requests(backend)
    }

    /// The number of extra mipmaps the texture holds.
    pub closed spec fn spec_mipmaps(&self) -> usize {
        B::spec_mipmaps(&self.repr)
    }

    /// The texels of the base level of the texture, in order.
    pub closed spec fn spec_texels(&self) -> Seq<P::Encoding> {
        B::spec_texels(&self.repr)
    }

    /// The raw texels of the base level of the texture, in order.
    pub closed spec fn spec_raw_texels(&self) -> Seq<P::RawEncoding> {
        B::spec_raw_texels(&self.repr)
    }

    /// Create a new [`Texture`].
    ///
    /// `size` is the wished size of the [`Texture`].
    ///
    /// `mipmaps` is the number of extra mipmaps to allocate with the texture. `0` means that the
    /// texture will only be made of a _base level_.
    ///
    /// `sampler` is a [`Sampler`] object that will be used when sampling the texture from inside a
    /// shader, for instance.
    ///
    /// # Notes
    ///
    /// Feel free to have a look at the documentation of [`GraphicsContext::new_texture`] for a
    /// simpler interface.
    pub fn new<C>(ctx: &mut C, size: D::Size, mipmaps: usize, sampler: Sampler) -> (r: Result<
        Self,
        TextureError,
    >) where C: GraphicsContext<Backend = B>
        ensures
            Self::spec_requests(final(ctx).spec_backend()) == Self::spec_requests(
                old(ctx).spec_backend(),
            ).push((size, mipmaps, sampler, Self::spec_answer(r))),
            r matches Ok(t) ==> {
                &&& t.spec_size() == size
                &&& t.spec_mipmaps() == mipmaps
                &&& t.spec_sampler() == sampler
                &&& B::spec_texture_size(&t.spec_repr()) == size
            },
    {
        let repr = ctx.backend().new_texture(size, mipmaps, sampler)?;
        Ok(Texture { repr, size, _phantom: PhantomData })
    }

    /// Wrap a backend representation of a texture of size `size`.
    pub(crate) fn from_repr(repr: B::TextureRepr, size: D::Size) -> (t: Self)
        ensures
            t.spec_size() == size,
            t.spec_mipmaps() == B::spec_mipmaps(&repr),
            t.spec_repr() == repr,
            t.repr == repr,
    {
        Texture { repr, size, _phantom: PhantomData }
    }

    /// Return the number of mipmaps.
    pub fn mipmaps(&self) -> (r: usize)
        ensures
            r == self.spec_mipmaps(),
    {
        B::mipmaps(&self.repr)
    }

    /// Return the size of the texture.
    pub fn size(&self) -> (r: D::Size)
        ensures
            r == self.spec_size(),
    {
        self.size
    }

    /// Clear the texture with a single pixel value.
    ///
    /// This function will assign the input pixel value to all the pixels in the rectangle described
    /// by `size` and `offset` in the texture.
    pub fn clear_part(
        &mut self,
        gen_mipmaps: GenMipmaps,
        offset: D::Offset,
        size: D::Size,
        pixel: P::Encoding,
    ) -> (r: Result<(), TextureError>)
        ensures
            final(self).spec_sampler() == old(self).spec_sampler(),
            final(self).spec_size() == old(self).spec_size(),
            final(self).spec_mipmaps() == old(self).spec_mipmaps(),
            r is Err ==> final(self).spec_texels() == old(self).spec_texels(),
            r is Ok ==> spec_region_written::<D, P::Encoding>(
                old(self).spec_texels(),
                final(self).spec_texels(),
                B::spec_texture_size(&old(self).spec_repr()),
                offset,
                size,
                |j: int| pixel,
            ),
    {
        B::clear_part(&mut self.repr, gen_mipmaps, offset, size, pixel)
    }

    /// Clear the texture with a single pixel value.
    ///
    /// This function will assign the input pixel value to all the pixels in the texture.
    pub fn clear(&mut self, gen_mipmaps: GenMipmaps, pixel: P::Encoding) -> (r: Result<
        (),
        TextureError,
    >)
        ensures
            final(self).spec_sampler() == old(self).spec_sampler(),
            final(self).spec_size() == old(self).spec_size(),
            final(self).spec_mipmaps() == old(self).spec_mipmaps(),
            r is Ok ==> final(self).spec_texels() == Seq::new(
                D::spec_count(old(self).spec_size()),
                |i: int| pixel,
            ),
            r is Err ==> final(self).spec_texels() == old(self).spec_texels(),
    {
        let size = self.size;
        B::clear(&mut self.repr, gen_mipmaps, size, pixel)
    }

    /// Upload pixels to a region of the texture described by the rectangle made with `size` and
    /// `offset`.
    pub fn upload_part(
        &mut self,
        gen_mipmaps: GenMipmaps,
        offset: D::Offset,
        size: D::Size,
        texels: &[P::Encoding],
    ) -> (r: Result<(), TextureError>)
        ensures
            final(self).spec_sampler() == old(self).spec_sampler(),
            final(self).spec_size() == old(self).spec_size(),
            final(self).spec_mipmaps() == old(self).spec_mipmaps(),
            r is Err ==> final(self).spec_texels() == old(self).spec_texels(),
            r is Ok ==> D::spec_count(size) <= texels@.len() && spec_region_written::<D, P::Encoding>(
                old(self).spec_texels(),
                final(self).spec_texels(),
                B::spec_texture_size(&old(self).spec_repr()),
                offset,
                size,
                |j: int| texels@[j],
            ),
    {
        B::upload_part(&mut self.repr, gen_mipmaps, offset, size, texels)
    }

    /// Upload pixels to the whole texture.
    pub fn upload(&mut self, gen_mipmaps: GenMipmaps, texels: &[P::Encoding]) -> (r: Result<
        (),
        TextureError,
    >)
        ensures
            final(self).spec_sampler() == old(self).spec_sampler(),
            final(self).spec_size() == old(self).spec_size(),
            final(self).spec_mipmaps() == old(self).spec_mipmaps(),
            r is Ok ==> D::spec_count(old(self).spec_size()) <= texels@.len()
                && final(self).spec_texels() == texels@.take(
                D::spec_count(old(self).spec_size()) as int,
            ),
            r is Err ==> final(self).spec_texels() == old(self).spec_texels(),
    {
        let size = self.size;
        B::upload(&mut self.repr, gen_mipmaps, size, texels)
    }

    /// Upload raw data to a region of the texture described by the rectangle made with `size` and
    /// `offset`.
    pub fn upload_part_raw(
        &mut self,
        gen_mipmaps: GenMipmaps,
        offset: D::Offset,
        size: D::Size,
        texels: &[P::RawEncoding],
    ) -> (r: Result<(), TextureError>)
        ensures
            final(self).spec_sampler() == old(self).spec_sampler(),
            final(self).spec_size() == old(self).spec_size(),
            final(self).spec_mipmaps() == old(self).spec_mipmaps(),
            r is Err ==> final(self).spec_raw_texels() == old(self).spec_raw_texels(),
    {
        B::upload_part_raw(&mut self.repr, gen_mipmaps, offset, size, texels)
    }

    /// Upload raw data to the whole texture.
    pub fn upload_raw(&mut self, gen_mipmaps: GenMipmaps, texels: &[P::RawEncoding]) -> (r: Result<
        (),
        TextureError,
    >)
        ensures
            final(self).spec_sampler() == old(self).spec_sampler(),
            final(self).spec_size() == old(self).spec_size(),
            final(self).spec_mipmaps() == old(self).spec_mipmaps(),
            r is Ok ==> final(self).spec_raw_texels().len() <= texels@.len()
                && final(self).spec_raw_texels() == texels@.take(
                final(self).spec_raw_texels().len() as int,
            ),
            r is Err ==> final(self).spec_raw_texels() == old(self).spec_raw_texels(),
    {
        let size = self.size;
        B::upload_raw(&mut self.repr, gen_mipmaps, size, texels)
    }

    /// Get a copy of all the pixels from the texture.
    pub fn get_raw_texels(&self) -> (r: Result<Vec<P::RawEncoding>, TextureError>) where
        P::RawEncoding: Copy + Default,
        ensures
            r matches Ok(v) ==> v@ == self.spec_raw_texels(),
    {
        B::get_raw_texels(&self.repr, self.size)
    }
}


/// The texel count of a 1D size is its width, its height and depth being `1`.
pub proof fn law_count_dim1(size: u32)
    ensures
        Dim1::spec_count(size) == Dim1::spec_width(size) * Dim1::spec_height(size)
            * Dim1::spec_depth(size),
        Dim1::spec_height(size) == 1 && Dim1::spec_depth(size) == 1,
{
    assert(size * 1 * 1 == size) by (nonlinear_arith);
}

/// The texel count of a 2D size is its width times its height, its depth being `1`.
pub proof fn law_count_dim2(size: [u32; 2])
    ensures
        Dim2::spec_count(size) == Dim2::spec_width(size) * Dim2::spec_height(size)
            * Dim2::spec_depth(size),
        Dim2::spec_width(size) == size[0] && Dim2::spec_height(size) == size[1],
        Dim2::spec_depth(size) == 1,
{
    assert(size[0] * size[1] * 1 == size[0] * size[1]) by (nonlinear_arith);
}

/// The texel count of a 3D size is its width times its height times its depth.
pub proof fn law_count_dim3(size: [u32; 3])
    ensures
        Dim3::spec_count(size) == Dim3::spec_width(size) * Dim3::spec_height(size)
            * Dim3::spec_depth(size),
        Dim3::spec_width(size) == size[0] && Dim3::spec_height(size) == size[1]
            && Dim3::spec_depth(size) == size[2],
{
}

/// The texel count of a cubemap size is the one of a face, its width times its height, the
/// cube having a depth of six faces.
pub proof fn law_count_cubemap(size: u32)
    ensures
        Cubemap::spec_count(size) == Cubemap::spec_width(size) * Cubemap::spec_height(size),
        Cubemap::spec_count(size) * Cubemap::spec_depth(size) == Cubemap::spec_width(size)
            * Cubemap::spec_height(size) * 6,
        Cubemap::spec_width(size) == size && Cubemap::spec_height(size) == size,
{
}

/// The texel count of a 1D array size is its width times its number of layers, its height.
pub proof fn law_count_dim1_array(size: (u32, u32))
    ensures
        Dim1Array::spec_count(size) == Dim1Array::spec_width(size) * Dim1Array::spec_height(size)
            * Dim1Array::spec_depth(size),
        Dim1Array::spec_width(size) == size.0 && Dim1Array::spec_height(size) == size.1,
        Dim1Array::spec_depth(size) == 1,
{
    assert(size.0 * size.1 * 1 == size.0 * size.1) by (nonlinear_arith);
}

/// The texel count of a 2D array size `([w, h], l)` is `w * h * l`: its width times its height
/// times its number of layers, its depth.
pub proof fn law_count_dim2_array(size: ([u32; 2], u32))
    ensures
        Dim2Array::spec_count(size) == Dim2Array::spec_width(size) * Dim2Array::spec_height(size)
            * Dim2Array::spec_depth(size),
        Dim2Array::spec_count(size) == size.0[0] * size.0[1] * size.1,
        Dim2Array::spec_width(size) == size.0[0] && Dim2Array::spec_height(size) == size.0[1]
            && Dim2Array::spec_depth(size) == size.1,
{
}

} // verus!
