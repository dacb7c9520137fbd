//! Pixel formats types and function manipulation.
//!
//! The [`Pixel`] trait is used to reify a pixel type at runtime via [`PixelFormat`]. It is made
//! of two parts:
//!
//! - [`Pixel::SamplerType`], the type of sampler that is needed to be used to access this pixel
//!   format on the GPU / in shaders.
//! - [`Pixel::pixel_format`], a function returning the [`PixelFormat`], reified version of the
//!   type at runtime.
use vstd::prelude::*;

verus! {

/// Reify a static pixel format at runtime.
pub trait Pixel {
    /// Encoding of a single pixel. It should match the [`PixelFormat`] mapping.
    type Encoding;

    /// Raw encoding of a single pixel; i.e. that is, encoding of underlying values in contiguous
    /// texture memory, without taking into account channels. It should match the [`PixelFormat`]
    /// mapping.
    type RawEncoding;

    /// The type of sampler required to access this pixel format.
    type SamplerType: SamplerType;

    /// The [`PixelFormat`] this pixel type reifies to.
    spec fn spec_pixel_format() -> PixelFormat;

    /// Reify to [`PixelFormat`].
    fn pixel_format() -> (r: PixelFormat)
        ensures
            r == Self::spec_pixel_format(),
    ;
}

/// Constraint on [`Pixel`] for color ones.
pub trait ColorPixel: Pixel {}

/// Constraint on [`Pixel`] for depth ones.
pub trait DepthPixel: Pixel {}

/// Constaint on [`Pixel`] for renderable ones.
pub trait RenderablePixel: Pixel {}

/// Reify a static sample type at runtime.
///
/// That trait is used to allow sampling with different types than the actual encoding of the
/// texture as long as the [`Type`] remains the same.
pub trait SamplerType {
    /// The underlying type of the sampler.
    spec fn spec_sample_type() -> Type;

    /// Underlying type of the sampler.
    fn sample_type() -> (r: Type)
        ensures
            r == Self::spec_sample_type(),
    ;
}

/// A `PixelFormat` gathers a `Type` along with a `Format`.
#[derive(Clone, Copy, Debug, PartialEq, Eq, Structural)]
pub struct PixelFormat {
    /// Encoding type of the pixel format.
    pub encoding: Type,
    /// Format of the pixel format.
    pub format: Format,
}

impl PixelFormat {
    /// Whether the format is a color one: every format but the depth one.
    pub open spec fn spec_is_color_pixel(self) -> bool {
        !(self.format is Depth)
    }

    /// Whether the format is a depth one.
    pub open spec fn spec_is_depth_pixel(self) -> bool {
        self.format is Depth
    }

    /// Does a [`PixelFormat`] represent a color?
    pub fn is_color_pixel(self) -> (r: bool)
        ensures
            r == self.spec_is_color_pixel(),
    {
        !match self.format {
            Format::Depth(_) => true,
            _ => false,
        }
    }

    /// Does a [`PixelFormat`] represent depth information?
    pub fn is_depth_pixel(self) -> (r: bool)
        ensures
            r == self.spec_is_depth_pixel(),
    {
        !self.is_color_pixel()
    }

    /// Return the number of canals.
    pub fn canals_len(self) -> (r: usize)
        ensures
            r == self.format.spec_canals_len(),
    {
        match self.format {
            Format::R(_) => 1,
            Format::RG(_, _) => 2,
            Format::RGB(_, _, _) => 3,
            Format::RGBA(_, _, _, _) => 4,
            Format::SRGB(_, _, _) => 3,
            Format::SRGBA(_, _, _, _) => 4,
            Format::Depth(_) => 1,
        }
    }

    /// The derived `Debug` rendering of the pixel format, as used in error messages.
    pub open spec fn spec_debug_text(self) -> Seq<char> {
        "PixelFormat { encoding: "@ + self.encoding.spec_debug_text() + ", format: "@
            + self.format.spec_debug_text() + " }"@
    }

    /// The `Debug` rendering of the pixel format, as used in error messages.
    pub fn debug_text(&self) -> (r: String)
        ensures
            r@ == self.spec_debug_text(),
    {
        let mut s = String::from_str("PixelFormat { encoding: ");
        let e = self.encoding.debug_text();
        s.append(e.as_str());
        s.append(", format: ");
        let f = self.format.debug_text();
        s.append(f.as_str());
        s.append(" }");
        s
    }
}

/// Pixel type.
///
/// - Normalized integer types: [`NormIntegral`] and [`NormUnsigned`] represent integer types
///   (signed and unsigned, respectively). However, they are _normalized_ when used in shader
///   stages, i.e. fetching from them will yield a floating-point value. That value is
///   comprised between `0.0` and `1.0`.
/// - Integer types: [`Integral`] and [`Unsigned`] allows to store signed and unsigned integers,
///   respectively.
/// - Floating-point types: currently, only [`Floating`] is supported.
#[derive(Clone, Copy, Debug, PartialEq, Eq, Structural)]
pub enum Type {
    /// Normalized signed integral pixel type.
    NormIntegral,
    /// Normalized unsigned integral pixel type.
    NormUnsigned,
    /// Signed integral pixel type.
    Integral,
    /// Unsigned integral pixel type.
    Unsigned,
    /// Floating-point pixel type.
    Floating,
}

impl Type {
    /// The derived `Debug` rendering of the type.
    pub open spec fn spec_debug_text(self) -> Seq<char> {
        match self {
            Type::NormIntegral => "NormIntegral"@,
            Type::NormUnsigned => "NormUnsigned"@,
            Type::Integral => "Integral"@,
            Type::Unsigned => "Unsigned"@,
            Type::Floating => "Floating"@,
        }
    }

    /// The `Debug` rendering of the type.
    pub fn debug_text(&self) -> (r: String)
        ensures
            r@ == self.spec_debug_text(),
    {
        match self {
            Type::NormIntegral => String::from_str("NormIntegral"),
            Type::NormUnsigned => String::from_str("NormUnsigned"),
            Type::Integral => String::from_str("Integral"),
            Type::Unsigned => String::from_str("Unsigned"),
            Type::Floating => String::from_str("Floating"),
        }
    }
}

/// Format of a pixel.
///
/// Whichever the constructor you choose, the carried [`Size`]s represent how many bits are used to
/// represent each channel.
#[derive(Clone, Copy, Debug, PartialEq, Eq, Structural)]
pub enum Format {
    /// Holds a red-only channel.
    R(Size),
    /// Holds red and green channels.
    RG(Size, Size),
    /// Holds red, green and blue channels.
    RGB(Size, Size, Size),
    /// Holds red, green, blue and alpha channels.
    RGBA(Size, Size, Size, Size),
    /// Holds a red, green and blue channels in sRGB colorspace.
    SRGB(Size, Size, Size),
    /// Holds a red, green and blue channels in sRGB colorspace, plus an alpha channel.
    SRGBA(Size, Size, Size, Size),
    /// Holds a depth channel.
    Depth(Size),
}

impl Format {
    /// Number of channels of the format.
    pub open spec fn spec_canals_len(self) -> nat {
        match self {
            Format::R(_) => 1,
            Format::RG(_, _) => 2,
            Format::RGB(_, _, _) => 3,
            Format::RGBA(_, _, _, _) => 4,
            Format::SRGB(_, _, _) => 3,
            Format::SRGBA(_, _, _, _) => 4,
            Format::Depth(_) => 1,
        }
    }

    /// Total number of bits of all the channels of the format.
    pub open spec fn spec_bits(self) -> nat {
        match self {
            Format::R(r) => r.spec_bits(),
            Format::RG(r, g) => r.spec_bits() + g.spec_bits(),
            Format::RGB(r, g, b) => r.spec_bits() + g.spec_bits() + b.spec_bits(),
            Format::RGBA(r, g, b, a) => r.spec_bits() + g.spec_bits() + b.spec_bits()
                + a.spec_bits(),
            Format::SRGB(r, g, b) => r.spec_bits() + g.spec_bits() + b.spec_bits(),
            Format::SRGBA(r, g, b, a) => r.spec_bits() + g.spec_bits() + b.spec_bits()
                + a.spec_bits(),
            Format::Depth(d) => d.spec_bits(),
        }
    }

    /// Size (in bytes) of a pixel of the format: its total number of bits, divided by 8.
    pub open spec fn spec_size(self) -> nat {
        self.spec_bits() / 8
    }

    /// Size (in bytes) of a pixel that a format represents.
    #[verifier::spinoff_prover]
    pub fn size(self) -> (r: usize)
        ensures
            r == self.spec_size(),
    {
        let bits: usize = match self {
            Format::R(r) => r.bits(),
            Format::RG(r, g) => r.bits() + g.bits(),
            Format::RGB(r, g, b) => r.bits() + g.bits() + b.bits(),
            Format::RGBA(r, g, b, a) => r.bits() + g.bits() + b.bits() + a.bits(),
            Format::SRGB(r, g, b) => r.bits() + g.bits() + b.bits(),
            Format::SRGBA(r, g, b, a) => r.bits() + g.bits() + b.bits() + a.bits(),
            Format::Depth(d) => d.bits(),
        };
        assert(bits == self.spec_bits());
        bits / 8
    }

    /// The derived `Debug` rendering of the format.
    pub open spec fn spec_debug_text(self) -> Seq<char> {
        match self {
            Format::R(r) => "R("@ + r.spec_debug_text() + ")"@,
            Format::RG(r, g) => "RG("@ + r.spec_debug_text() + ", "@ + g.spec_debug_text() + ")"@,
            Format::RGB(r, g, b) => "RGB("@ + r.spec_debug_text() + ", "@ + g.spec_debug_text()
                + ", "@ + b.spec_debug_text() + ")"@,
            Format::RGBA(r, g, b, a) => "RGBA("@ + r.spec_debug_text() + ", "@
                + g.spec_debug_text() + ", "@ + b.spec_debug_text() + ", "@ + a.spec_debug_text()
                + ")"@,
            Format::SRGB(r, g, b) => "SRGB("@ + r.spec_debug_text() + ", "@ + g.spec_debug_text()
                + ", "@ + b.spec_debug_text() + ")"@,
            Format::SRGBA(r, g, b, a) => "SRGBA("@ + r.spec_debug_text() + ", "@
                + g.spec_debug_text() + ", "@ + b.spec_debug_text() + ", "@ + a.spec_debug_text()
                + ")"@,
            Format::Depth(d) => "Depth("@ + d.spec_debug_text() + ")"@,
        }
    }

    /// The `Debug` rendering of the format.
    pub fn debug_text(&self) -> (r: String)
        ensures
            r@ == self.spec_debug_text(),
    {
        match *self {
            Format::R(r) => {
                let mut s = String::from_str("R(");
                push_size(&mut s, r, true);
                s
            },
            Format::RG(r, g) => {
                let mut s = String::from_str("RG(");
                push_size(&mut s, r, false);
                push_size(&mut s, g, true);
                s
            },
            Format::RGB(r, g, b) => {
                let mut s = String::from_str("RGB(");
                push_size(&mut s, r, false);
                push_size(&mut s, g, false);
                push_size(&mut s, b, true);
                s
            },
            Format::RGBA(r, g, b, a) => {
                let mut s = String::from_str("RGBA(");
                push_size(&mut s, r, false);
                push_size(&mut s, g, false);
                push_size(&mut s, b, false);
                push_size(&mut s, a, true);
                s
            },
            Format::SRGB(r, g, b) => {
                let mut s = String::from_str("SRGB(");
                push_size(&mut s, r, false);
                push_size(&mut s, g, false);
                push_size(&mut s, b, true);
                s
            },
            Format::SRGBA(r, g, b, a) => {
                let mut s = String::from_str("SRGBA(");
                push_size(&mut s, r, false);
                push_size(&mut s, g, false);
                push_size(&mut s, b, false);
                push_size(&mut s, a, true);
                s
            },
            Format::Depth(d) => {
                let mut s = String::from_str("Depth(");
                push_size(&mut s, d, true);
                s
            },
        }
    }
}

/// Appends the `Debug` rendering of a channel size, followed by `")"` for the last channel and by
/// `", "` for the others.
fn push_size(s: &mut String, size: Size, last: bool)
    ensures
        final(s)@ == old(s)@ + size.spec_debug_text() + (if last { ")"@ } else { ", "@ }),
{
    let t = size.debug_text();
    s.append(t.as_str());
    if last {
        s.append(")");
    } else {
        s.append(", ");
    }
}

/// Size in bits a pixel channel can be.
#[derive(Clone, Copy, Debug, PartialEq, Eq, Structural)]
pub enum Size {
    /// 8-bit.
    Eight,
    /// 10-bit.
    Ten,
    /// 11-bit.
    Eleven,
    /// 16-bit.
    Sixteen,
    /// 32-bit.
    ThirtyTwo,
}

impl Size {
    /// Number of bits of a channel of this size.
    pub open spec fn spec_bits(self) -> nat {
        match self {
            Size::Eight => 8,
            Size::Ten => 10,
            Size::Eleven => 11,
            Size::Sixteen => 16,
            Size::ThirtyTwo => 32,
        }
    }

    /// Size (in bits).
    pub fn bits(self) -> (r: usize)
        ensures
            r == self.spec_bits(),
            8 <= r <= 32,
    {
        match self {
            Size::Eight => 8,
            Size::Ten => 10,
            Size::Eleven => 11,
            Size::Sixteen => 16,
            Size::ThirtyTwo => 32,
        }
    }

    /// The derived `Debug` rendering of the size.
    pub open spec fn spec_debug_text(self) -> Seq<char> {
        match self {
            Size::Eight => "Eight"@,
            Size::Ten => "Ten"@,
            Size::Eleven => "Eleven"@,
            Size::Sixteen => "Sixteen"@,
            Size::ThirtyTwo => "ThirtyTwo"@,
        }
    }

    /// The `Debug` rendering of the size.
    pub fn debug_text(&self) -> (r: String)
        ensures
            r@ == self.spec_debug_text(),
    {
        match self {
            Size::Eight => String::from_str("Eight"),
            Size::Ten => String::from_str("Ten"),
            Size::Eleven => String::from_str("Eleven"),
            Size::Sixteen => String::from_str("Sixteen"),
            Size::ThirtyTwo => String::from_str("ThirtyTwo"),
        }
    }
}

/// A pixel format has exactly one of the two natures: it is either a color format or a depth
/// format, and it is a depth one exactly when its format holds a depth channel.
pub proof fn lemma_color_xor_depth(pf: PixelFormat)
    ensures
        pf.spec_is_color_pixel() != pf.spec_is_depth_pixel(),
        pf.spec_is_depth_pixel() <==> pf.format is Depth,
        pf.spec_is_depth_pixel() ==> pf.format.spec_canals_len() == 1,
{
}

/// Every channel takes at least one byte, so a pixel takes at least as many bytes as it has
/// channels, and at most four bytes per channel.
pub proof fn lemma_size_bounds(f: Format)
    ensures
        f.spec_canals_len() <= f.spec_size() <= 4 * f.spec_canals_len(),
        1 <= f.spec_canals_len() <= 4,
{
}

/// The normalized (signed) integral sampler type.
#[derive(Clone, Copy, Debug, PartialEq, Eq, Structural)]
pub struct NormIntegral;

impl SamplerType for NormIntegral {
    open spec fn spec_sample_type() -> Type {
        Type::NormIntegral
    }

    fn sample_type() -> (r: Type)
        ensures
            r == Type::NormIntegral,
    {
        Type::NormIntegral
    }
}

/// The normalized unsigned integral samplre type.
#[derive(Clone, Copy, Debug, PartialEq, Eq, Structural)]
pub struct NormUnsigned;

impl SamplerType for NormUnsigned {
    open spec fn spec_sample_type() -> Type {
        Type::NormUnsigned
    }

    fn sample_type() -> (r: Type)
        ensures
            r == Type::NormUnsigned,
    {
        Type::NormUnsigned
    }
}

/// The (signed) integral sampler type.
#[derive(Clone, Copy, Debug, PartialEq, Eq, Structural)]
pub struct Integral;

impl SamplerType for Integral {
    open spec fn spec_sample_type() -> Type {
        Type::Integral
    }

    fn sample_type() -> (r: Type)
        ensures
            r == Type::Integral,
    {
        Type::Integral
    }
}

/// The unsigned integral sampler type.
#[derive(Clone, Copy, Debug, PartialEq, Eq, Structural)]
pub struct Unsigned;

impl SamplerType for Unsigned {
    open spec fn spec_sample_type() -> Type {
        Type::Unsigned
    }

    fn sample_type() -> (r: Type)
        ensures
            r == Type::Unsigned,
    {
        Type::Unsigned
    }
}

/// The floating sampler type.
#[derive(Clone, Copy, Debug, PartialEq, Eq, Structural)]
pub struct Floating;

impl SamplerType for Floating {
    open spec fn spec_sample_type() -> Type {
        Type::Floating
    }

    fn sample_type() -> (r: Type)
        ensures
            r == Type::Floating,
    {
        Type::Floating
    }
}

/// A red 8-bit signed integral pixel format.
#[derive(Clone, Copy, Debug)]
pub struct R8I;

impl Pixel for R8I {
    type Encoding = i8;

    type RawEncoding = i8;

    type SamplerType = Integral;

    open spec fn spec_pixel_format() -> PixelFormat {
        PixelFormat { encoding: Type::Integral, format: Format::R(Size::Eight) }
    }

    fn pixel_format() -> (r: PixelFormat) {
        PixelFormat { encoding: Type::Integral, format: Format::R(Size::Eight) }
    }
}

impl ColorPixel for R8I {}

impl RenderablePixel for R8I {}

/// A red 8-bit signed integral pixel format, accessed as normalized floating pixels.
#[derive(Clone, Copy, Debug)]
pub struct NormR8I;

impl Pixel for NormR8I {
    type Encoding = i8;

    type RawEncoding = i8;

    type SamplerType = NormIntegral;

    open spec fn spec_pixel_format() -> PixelFormat {
        PixelFormat { encoding: Type::NormIntegral, format: Format::R(Size::Eight) }
    }

    fn pixel_format() -> (r: PixelFormat) {
        PixelFormat { encoding: Type::NormIntegral, format: Format::R(Size::Eight) }
    }
}

impl ColorPixel for NormR8I {}

impl RenderablePixel for NormR8I {}

/// A red 8-bit unsigned integral pixel format.
#[derive(Clone, Copy, Debug)]
pub struct R8UI;

impl Pixel for R8UI {
    type Encoding = u8;

    type RawEncoding = u8;

    type SamplerType = Unsigned;

    open spec fn spec_pixel_format() -> PixelFormat {
        PixelFormat { encoding: Type::Unsigned, format: Format::R(Size::Eight) }
    }

    fn pixel_format() -> (r: PixelFormat) {
        PixelFormat { encoding: Type::Unsigned, format: Format::R(Size::Eight) }
    }
}

impl ColorPixel for R8UI {}

impl RenderablePixel for R8UI {}

/// A red 8-bit unsigned integral pixel format, accessed as normalized floating pixels.
#[derive(Clone, Copy, Debug)]
pub struct NormR8UI;

impl Pixel for NormR8UI {
    type Encoding = u8;

    type RawEncoding = u8;

    type SamplerType = NormUnsigned;

    open spec fn spec_pixel_format() -> PixelFormat {
        PixelFormat { encoding: Type::NormUnsigned, format: Format::R(Size::Eight) }
    }

    fn pixel_format() -> (r: PixelFormat) {
        PixelFormat { encoding: Type::NormUnsigned, format: Format::R(Size::Eight) }
    }
}

impl ColorPixel for NormR8UI {}

impl RenderablePixel for NormR8UI {}

/// A red 16-bit signed integral pixel format.
#[derive(Clone, Copy, Debug)]
pub struct R16I;

impl Pixel for R16I {
    type Encoding = i16;

    type RawEncoding = i16;

    type SamplerType = Integral;

    open spec fn spec_pixel_format() -> PixelFormat {
        PixelFormat { encoding: Type::Integral, format: Format::R(Size::Sixteen) }
    }

    fn pixel_format() -> (r: PixelFormat) {
        PixelFormat { encoding: Type::Integral, format: Format::R(Size::Sixteen) }
    }
}

impl ColorPixel for R16I {}

impl RenderablePixel for R16I {}

/// A red 16-bit signed integral pixel format, accessed as normalized floating pixels.
#[derive(Clone, Copy, Debug)]
pub struct NormR16I;

impl Pixel for NormR16I {
    type Encoding = i16;

    type RawEncoding = i16;

    type SamplerType = NormIntegral;

    open spec fn spec_pixel_format() -> PixelFormat {
        PixelFormat { encoding: Type::NormIntegral, format: Format::R(Size::Sixteen) }
    }

    fn pixel_format() -> (r: PixelFormat) {
        PixelFormat { encoding: Type::NormIntegral, format: Format::R(Size::Sixteen) }
    }
}

impl ColorPixel for NormR16I {}

impl RenderablePixel for NormR16I {}

/// A red 16-bit unsigned integral pixel format.
#[derive(Clone, Copy, Debug)]
pub struct R16UI;

impl Pixel for R16UI {
    type Encoding = u16;

    type RawEncoding = u16;

    type SamplerType = Unsigned;

    open spec fn spec_pixel_format() -> PixelFormat {
        PixelFormat { encoding: Type::Unsigned, format: Format::R(Size::Sixteen) }
    }

    fn pixel_format() -> (r: PixelFormat) {
        PixelFormat { encoding: Type::Unsigned, format: Format::R(Size::Sixteen) }
    }
}

impl ColorPixel for R16UI {}

impl RenderablePixel for R16UI {}

/// A red 16-bit unsigned integral pixel format, accessed as normalized floating pixels.
#[derive(Clone, Copy, Debug)]
pub struct NormR16UI;

impl Pixel for NormR16UI {
    type Encoding = u16;

    type RawEncoding = u16;

    type SamplerType = NormUnsigned;

    open spec fn spec_pixel_format() -> PixelFormat {
        PixelFormat { encoding: Type::NormUnsigned, format: Format::R(Size::Sixteen) }
    }

    fn pixel_format() -> (r: PixelFormat) {
        PixelFormat { encoding: Type::NormUnsigned, format: Format::R(Size::Sixteen) }
    }
}

impl ColorPixel for NormR16UI {}

impl RenderablePixel for NormR16UI {}

/// A red 32-bit signed integral pixel format.
#[derive(Clone, Copy, Debug)]
pub struct R32I;

impl Pixel for R32I {
    type Encoding = i32;

    type RawEncoding = i32;

    type SamplerType = Integral;

    open spec fn spec_pixel_format() -> PixelFormat {
        PixelFormat { encoding: Type::Integral, format: Format::R(Size::ThirtyTwo) }
    }

    fn pixel_format() -> (r: PixelFormat) {
        PixelFormat { encoding: Type::Integral, format: Format::R(Size::ThirtyTwo) }
    }
}

impl ColorPixel for R32I {}

impl RenderablePixel for R32I {}

/// A red 32-bit signed integral pixel format, accessed as normalized floating pixels.
#[derive(Clone, Copy, Debug)]
pub struct NormR32I;

impl Pixel for NormR32I {
    type Encoding = i32;

    type RawEncoding = i32;

    type SamplerType = NormIntegral;

    open spec fn spec_pixel_format() -> PixelFormat {
        PixelFormat { encoding: Type::NormIntegral, format: Format::R(Size::ThirtyTwo) }
    }

    fn pixel_format() -> (r: PixelFormat) {
        PixelFormat { encoding: Type::NormIntegral, format: Format::R(Size::ThirtyTwo) }
    }
}

impl ColorPixel for NormR32I {}

impl RenderablePixel for NormR32I {}

/// A red 32-bit unsigned integral pixel format.
#[derive(Clone, Copy, Debug)]
pub struct R32UI;

impl Pixel for R32UI {
    type Encoding = u32;

    type RawEncoding = u32;

    type SamplerType = Unsigned;

    open spec fn spec_pixel_format() -> PixelFormat {
        PixelFormat { encoding: Type::Unsigned, format: Format::R(Size::ThirtyTwo) }
    }

    fn pixel_format() -> (r: PixelFormat) {
        PixelFormat { encoding: Type::Unsigned, format: Format::R(Size::ThirtyTwo) }
    }
}

impl ColorPixel for R32UI {}

impl RenderablePixel for R32UI {}

/// A red 32-bit unsigned integral pixel format, accessed as normalized floating pixels.
#[derive(Clone, Copy, Debug)]
pub struct NormR32UI;

impl Pixel for NormR32UI {
    type Encoding = u32;

    type RawEncoding = u32;

    type SamplerType = NormUnsigned;

    open spec fn spec_pixel_format() -> PixelFormat {
        PixelFormat { encoding: Type::NormUnsigned, format: Format::R(Size::ThirtyTwo) }
    }

    fn pixel_format() -> (r: PixelFormat) {
        PixelFormat { encoding: Type::NormUnsigned, format: Format::R(Size::ThirtyTwo) }
    }
}

impl ColorPixel for NormR32UI {}

impl RenderablePixel for NormR32UI {}

/// A red and green 8-bit signed integral pixel format.
#[derive(Clone, Copy, Debug)]
pub struct RG8I;

impl Pixel for RG8I {
    type Encoding = (i8, i8);

    type RawEncoding = i8;

    type SamplerType = Integral;

    open spec fn spec_pixel_format() -> PixelFormat {
        PixelFormat { encoding: Type::Integral, format: Format::RG(Size::Eight, Size::Eight) }
    }

    fn pixel_format() -> (r: PixelFormat) {
        PixelFormat { encoding: Type::Integral, format: Format::RG(Size::Eight, Size::Eight) }
    }
}

impl ColorPixel for RG8I {}

impl RenderablePixel for RG8I {}

/// A red and green 8-bit integral pixel format, accessed as normalized floating pixels.
#[derive(Clone, Copy, Debug)]
pub struct NormRG8I;

impl Pixel for NormRG8I {
    type Encoding = (i8, i8);

    type RawEncoding = i8;

    type SamplerType = NormIntegral;

    open spec fn spec_pixel_format() -> PixelFormat {
        PixelFormat { encoding: Type::NormIntegral, format: Format::RG(Size::Eight, Size::Eight) }
    }

    fn pixel_format() -> (r: PixelFormat) {
        PixelFormat { encoding: Type::NormIntegral, format: Format::RG(Size::Eight, Size::Eight) }
    }
}

impl ColorPixel for NormRG8I {}

impl RenderablePixel for NormRG8I {}

/// A red and green 8-bit unsigned integral pixel format.
#[derive(Clone, Copy, Debug)]
pub struct RG8UI;

impl Pixel for RG8UI {
    type Encoding = (u8, u8);

    type RawEncoding = u8;

    type SamplerType = Unsigned;

    open spec fn spec_pixel_format() -> PixelFormat {
        PixelFormat { encoding: Type::Unsigned, format: Format::RG(Size::Eight, Size::Eight) }
    }

    fn pixel_format() -> (r: PixelFormat) {
        PixelFormat { encoding: Type::Unsigned, format: Format::RG(Size::Eight, Size::Eight) }
    }
}

impl ColorPixel for RG8UI {}

impl RenderablePixel for RG8UI {}

/// A red and green 8-bit unsigned integral pixel format, accessed as normalized floating pixels.
#[derive(Clone, Copy, Debug)]
pub struct NormRG8UI;

impl Pixel for NormRG8UI {
    type Encoding = (u8, u8);

    type RawEncoding = u8;

    type SamplerType = NormUnsigned;

    open spec fn spec_pixel_format() -> PixelFormat {
        PixelFormat { encoding: Type::NormUnsigned, format: Format::RG(Size::Eight, Size::Eight) }
    }

    fn pixel_format() -> (r: PixelFormat) {
        PixelFormat { encoding: Type::NormUnsigned, format: Format::RG(Size::Eight, Size::Eight) }
    }
}

impl ColorPixel for NormRG8UI {}

impl RenderablePixel for NormRG8UI {}

/// A red and green 16-bit signed integral pixel format.
#[derive(Clone, Copy, Debug)]
pub struct RG16I;

impl Pixel for RG16I {
    type Encoding = (i16, i16);

    type RawEncoding = i16;

    type SamplerType = Integral;

    open spec fn spec_pixel_format() -> PixelFormat {
        PixelFormat { encoding: Type::Integral, format: Format::RG(Size::Sixteen, Size::Sixteen) }
    }

    fn pixel_format() -> (r: PixelFormat) {
        PixelFormat { encoding: Type::Integral, format: Format::RG(Size::Sixteen, Size::Sixteen) }
    }
}

impl ColorPixel for RG16I {}

impl RenderablePixel for RG16I {}

/// A red and green 16-bit integral pixel format, accessed as normalized floating pixels.
#[derive(Clone, Copy, Debug)]
pub struct NormRG16I;

impl Pixel for NormRG16I {
    type Encoding = (i16, i16);

    type RawEncoding = i16;

    type SamplerType = NormIntegral;

    open spec fn spec_pixel_format() -> PixelFormat {
        PixelFormat { encoding: Type::NormIntegral, format: Format::RG(Size::Sixteen, Size::Sixteen) }
    }

    fn pixel_format() -> (r: PixelFormat) {
        PixelFormat { encoding: Type::NormIntegral, format: Format::RG(Size::Sixteen, Size::Sixteen) }
    }
}

impl ColorPixel for NormRG16I {}

impl RenderablePixel for NormRG16I {}

/// A red and green 16-bit unsigned integral pixel format.
#[derive(Clone, Copy, Debug)]
pub struct RG16UI;

impl Pixel for RG16UI {
    type Encoding = (u16, u16);

    type RawEncoding = u16;

    type SamplerType = Unsigned;

    open spec fn spec_pixel_format() -> PixelFormat {
        PixelFormat { encoding: Type::Unsigned, format: Format::RG(Size::Sixteen, Size::Sixteen) }
    }

    fn pixel_format() -> (r: PixelFormat) {
        PixelFormat { encoding: Type::Unsigned, format: Format::RG(Size::Sixteen, Size::Sixteen) }
    }
}

impl ColorPixel for RG16UI {}

impl RenderablePixel for RG16UI {}

/// A red and green 16-bit unsigned integral pixel format, accessed as normalized floating pixels.
#[derive(Clone, Copy, Debug)]
pub struct NormRG16UI;

impl Pixel for NormRG16UI {
    type Encoding = (u16, u16);

    type RawEncoding = u16;

    type SamplerType = NormUnsigned;

    open spec fn spec_pixel_format() -> PixelFormat {
        PixelFormat { encoding: Type::NormUnsigned, format: Format::RG(Size::Sixteen, Size::Sixteen) }
    }

    fn pixel_format() -> (r: PixelFormat) {
        PixelFormat { encoding: Type::NormUnsigned, format: Format::RG(Size::Sixteen, Size::Sixteen) }
    }
}

impl ColorPixel for NormRG16UI {}

impl RenderablePixel for NormRG16UI {}

/// A red and green 32-bit signed integral pixel format.
#[derive(Clone, Copy, Debug)]
pub struct RG32I;

impl Pixel for RG32I {
    type Encoding = (i32, i32);

    type RawEncoding = i32;

    type SamplerType = Integral;

    open spec fn spec_pixel_format() -> PixelFormat {
        PixelFormat { encoding: Type::Integral, format: Format::RG(Size::ThirtyTwo, Size::ThirtyTwo) }
    }

    fn pixel_format() -> (r: PixelFormat) {
        PixelFormat { encoding: Type::Integral, format: Format::RG(Size::ThirtyTwo, Size::ThirtyTwo) }
    }
}

impl ColorPixel for RG32I {}

impl RenderablePixel for RG32I {}

/// A red and green 32-bit signed integral pixel format, accessed as normalized floating pixels.
#[derive(Clone, Copy, Debug)]
pub struct NormRG32I;

impl Pixel for NormRG32I {
    type Encoding = (i32, i32);

    type RawEncoding = i32;

    type SamplerType = NormIntegral;

    open spec fn spec_pixel_format() -> PixelFormat {
        PixelFormat { encoding: Type::NormIntegral, format: Format::RG(Size::ThirtyTwo, Size::ThirtyTwo) }
    }

    fn pixel_format() -> (r: PixelFormat) {
        PixelFormat { encoding: Type::NormIntegral, format: Format::RG(Size::ThirtyTwo, Size::ThirtyTwo) }
    }
}

impl ColorPixel for NormRG32I {}

impl RenderablePixel for NormRG32I {}

/// A red and green 32-bit unsigned integral pixel format.
#[derive(Clone, Copy, Debug)]
pub struct RG32UI;

impl Pixel for RG32UI {
    type Encoding = (u32, u32);

    type RawEncoding = u32;

    type SamplerType = Unsigned;

    open spec fn spec_pixel_format() -> PixelFormat {
        PixelFormat { encoding: Type::Unsigned, format: Format::RG(Size::ThirtyTwo, Size::ThirtyTwo) }
    }

    fn pixel_format() -> (r: PixelFormat) {
        PixelFormat { encoding: Type::Unsigned, format: Format::RG(Size::ThirtyTwo, Size::ThirtyTwo) }
    }
}

impl ColorPixel for RG32UI {}

impl RenderablePixel for RG32UI {}

/// A red and green 32-bit unsigned integral pixel format, accessed as normalized floating pixels.
#[derive(Clone, Copy, Debug)]
pub struct NormRG32UI;

impl Pixel for NormRG32UI {
    type Encoding = (u32, u32);

    type RawEncoding = u32;

    type SamplerType = NormUnsigned;

    open spec fn spec_pixel_format() -> PixelFormat {
        PixelFormat { encoding: Type::NormUnsigned, format: Format::RG(Size::ThirtyTwo, Size::ThirtyTwo) }
    }

    fn pixel_format() -> (r: PixelFormat) {
        PixelFormat { encoding: Type::NormUnsigned, format: Format::RG(Size::ThirtyTwo, Size::ThirtyTwo) }
    }
}

impl ColorPixel for NormRG32UI {}

impl RenderablePixel for NormRG32UI {}

/// A red, green and blue 8-bit signed integral pixel format.
#[derive(Clone, Copy, Debug)]
pub struct RGB8I;

impl Pixel for RGB8I {
    type Encoding = (i8, i8, i8);

    type RawEncoding = i8;

    type SamplerType = Integral;

    open spec fn spec_pixel_format() -> PixelFormat {
        PixelFormat { encoding: Type::Integral, format: Format::RGB(Size::Eight, Size::Eight, Size::Eight) }
    }

    fn pixel_format() -> (r: PixelFormat) {
        PixelFormat { encoding: Type::Integral, format: Format::RGB(Size::Eight, Size::Eight, Size::Eight) }
    }
}

impl ColorPixel for RGB8I {}

impl RenderablePixel for RGB8I {}

/// A red, green and blue 8-bit signed integral pixel format, accessed as normalized floating
/// pixels.
#[derive(Clone, Copy, Debug)]
pub struct NormRGB8I;

impl Pixel for NormRGB8I {
    type Encoding = (i8, i8, i8);

    type RawEncoding = i8;

    type SamplerType = NormIntegral;

    open spec fn spec_pixel_format() -> PixelFormat {
        PixelFormat { encoding: Type::NormIntegral, format: Format::RGB(Size::Eight, Size::Eight, Size::Eight) }
    }

    fn pixel_format() -> (r: PixelFormat) {
        PixelFormat { encoding: Type::NormIntegral, format: Format::RGB(Size::Eight, Size::Eight, Size::Eight) }
    }
}

impl ColorPixel for NormRGB8I {}

impl RenderablePixel for NormRGB8I {}

/// A red, green and blue 8-bit unsigned integral pixel format.
#[derive(Clone, Copy, Debug)]
pub struct RGB8UI;

impl Pixel for RGB8UI {
    type Encoding = (u8, u8, u8);

    type RawEncoding = u8;

    type SamplerType = Unsigned;

    open spec fn spec_pixel_format() -> PixelFormat {
        PixelFormat { encoding: Type::Unsigned, format: Format::RGB(Size::Eight, Size::Eight, Size::Eight) }
    }

    fn pixel_format() -> (r: PixelFormat) {
        PixelFormat { encoding: Type::Unsigned, format: Format::RGB(Size::Eight, Size::Eight, Size::Eight) }
    }
}

impl ColorPixel for RGB8UI {}

impl RenderablePixel for RGB8UI {}

/// A red, green and blue 8-bit unsigned integral pixel format, accessed as normalized floating
/// pixels.
#[derive(Clone, Copy, Debug)]
pub struct NormRGB8UI;

impl Pixel for NormRGB8UI {
    type Encoding = (u8, u8, u8);

    type RawEncoding = u8;

    type SamplerType = NormUnsigned;

    open spec fn spec_pixel_format() -> PixelFormat {
        PixelFormat { encoding: Type::NormUnsigned, format: Format::RGB(Size::Eight, Size::Eight, Size::Eight) }
    }

    fn pixel_format() -> (r: PixelFormat) {
        PixelFormat { encoding: Type::NormUnsigned, format: Format::RGB(Size::Eight, Size::Eight, Size::Eight) }
    }
}

impl ColorPixel for NormRGB8UI {}

impl RenderablePixel for NormRGB8UI {}

/// A red, green and blue 16-bit signed integral pixel format.
#[derive(Clone, Copy, Debug)]
pub struct RGB16I;

impl Pixel for RGB16I {
    type Encoding = (i16, i16, i16);

    type RawEncoding = i16;

    type SamplerType = Integral;

    open spec fn spec_pixel_format() -> PixelFormat {
        PixelFormat { encoding: Type::Integral, format: Format::RGB(Size::Sixteen, Size::Sixteen, Size::Sixteen) }
    }

    fn pixel_format() -> (r: PixelFormat) {
        PixelFormat { encoding: Type::Integral, format: Format::RGB(Size::Sixteen, Size::Sixteen, Size::Sixteen) }
    }
}

impl ColorPixel for RGB16I {}

impl RenderablePixel for RGB16I {}

/// A red, green and blue 16-bit signed integral pixel format, accessed as normalized floating
/// pixels.
#[derive(Clone, Copy, Debug)]
pub struct NormRGB16I;

impl Pixel for NormRGB16I {
    type Encoding = (i16, i16, i16);

    type RawEncoding = i16;

    type SamplerType = NormIntegral;

    open spec fn spec_pixel_format() -> PixelFormat {
        PixelFormat { encoding: Type::NormIntegral, format: Format::RGB(Size::Sixteen, Size::Sixteen, Size::Sixteen) }
    }

    fn pixel_format() -> (r: PixelFormat) {
        PixelFormat { encoding: Type::NormIntegral, format: Format::RGB(Size::Sixteen, Size::Sixteen, Size::Sixteen) }
    }
}

impl ColorPixel for NormRGB16I {}

impl RenderablePixel for NormRGB16I {}

/// A red, green and blue 16-bit unsigned integral pixel format.
#[derive(Clone, Copy, Debug)]
pub struct RGB16UI;

impl Pixel for RGB16UI {
    type Encoding = (u16, u16, u16);

    type RawEncoding = u16;

    type SamplerType = Unsigned;

    open spec fn spec_pixel_format() -> PixelFormat {
        PixelFormat { encoding: Type::Unsigned, format: Format::RGB(Size::Sixteen, Size::Sixteen, Size::Sixteen) }
    }

    fn pixel_format() -> (r: PixelFormat) {
        PixelFormat { encoding: Type::Unsigned, format: Format::RGB(Size::Sixteen, Size::Sixteen, Size::Sixteen) }
    }
}

impl ColorPixel for RGB16UI {}

impl RenderablePixel for RGB16UI {}

/// A red, green and blue 16-bit unsigned integral pixel format, accessed as normalized floating
/// pixels.
#[derive(Clone, Copy, Debug)]
pub struct NormRGB16UI;

impl Pixel for NormRGB16UI {
    type Encoding = (u16, u16, u16);

    type RawEncoding = u16;

    type SamplerType = NormUnsigned;

    open spec fn spec_pixel_format() -> PixelFormat {
        PixelFormat { encoding: Type::NormUnsigned, format: Format::RGB(Size::Sixteen, Size::Sixteen, Size::Sixteen) }
    }

    fn pixel_format() -> (r: PixelFormat) {
        PixelFormat { encoding: Type::NormUnsigned, format: Format::RGB(Size::Sixteen, Size::Sixteen, Size::Sixteen) }
    }
}

impl ColorPixel for NormRGB16UI {}

impl RenderablePixel for NormRGB16UI {}

/// A red, green and blue 32-bit signed integral pixel format.
#[derive(Clone, Copy, Debug)]
pub struct RGB32I;

impl Pixel for RGB32I {
    type Encoding = (i32, i32, i32);

    type RawEncoding = i32;

    type SamplerType = Integral;

    open spec fn spec_pixel_format() -> PixelFormat {
        PixelFormat { encoding: Type::Integral, format: Format::RGB(Size::ThirtyTwo, Size::ThirtyTwo, Size::ThirtyTwo) }
    }

    fn pixel_format() -> (r: PixelFormat) {
        PixelFormat { encoding: Type::Integral, format: Format::RGB(Size::ThirtyTwo, Size::ThirtyTwo, Size::ThirtyTwo) }
    }
}

impl ColorPixel for RGB32I {}

impl RenderablePixel for RGB32I {}

/// A red, green and blue 32-bit signed integral pixel format, accessed as normalized floating
/// pixels.
#[derive(Clone, Copy, Debug)]
pub struct NormRGB32I;

impl Pixel for NormRGB32I {
    type Encoding = (i32, i32, i32);

    type RawEncoding = i32;

    type SamplerType = NormIntegral;

    open spec fn spec_pixel_format() -> PixelFormat {
        PixelFormat { encoding: Type::NormIntegral, format: Format::RGB(Size::ThirtyTwo, Size::ThirtyTwo, Size::ThirtyTwo) }
    }

    fn pixel_format() -> (r: PixelFormat) {
        PixelFormat { encoding: Type::NormIntegral, format: Format::RGB(Size::ThirtyTwo, Size::ThirtyTwo, Size::ThirtyTwo) }
    }
}

impl ColorPixel for NormRGB32I {}

impl RenderablePixel for NormRGB32I {}

/// A red, green and blue 32-bit unsigned integral pixel format.
#[derive(Clone, Copy, Debug)]
pub struct RGB32UI;

impl Pixel for RGB32UI {
    type Encoding = (u32, u32, u32);

    type RawEncoding = u32;

    type SamplerType = Unsigned;

    open spec fn spec_pixel_format() -> PixelFormat {
        PixelFormat { encoding: Type::Unsigned, format: Format::RGB(Size::ThirtyTwo, Size::ThirtyTwo, Size::ThirtyTwo) }
    }

    fn pixel_format() -> (r: PixelFormat) {
        PixelFormat { encoding: Type::Unsigned, format: Format::RGB(Size::ThirtyTwo, Size::ThirtyTwo, Size::ThirtyTwo) }
    }
}

impl ColorPixel for RGB32UI {}

impl RenderablePixel for RGB32UI {}

/// A red, green and blue 32-bit unsigned integral pixel format, accessed as normalized floating
/// pixels.
#[derive(Clone, Copy, Debug)]
pub struct NormRGB32UI;

impl Pixel for NormRGB32UI {
    type Encoding = (u32, u32, u32);

    type RawEncoding = u32;

    type SamplerType = NormUnsigned;

    open spec fn spec_pixel_format() -> PixelFormat {
        PixelFormat { encoding: Type::NormUnsigned, format: Format::RGB(Size::ThirtyTwo, Size::ThirtyTwo, Size::ThirtyTwo) }
    }

    fn pixel_format() -> (r: PixelFormat) {
        PixelFormat { encoding: Type::NormUnsigned, format: Format::RGB(Size::ThirtyTwo, Size::ThirtyTwo, Size::ThirtyTwo) }
    }
}

impl ColorPixel for NormRGB32UI {}

impl RenderablePixel for NormRGB32UI {}

/// A red, green, blue and alpha 8-bit signed integral pixel format.
#[derive(Clone, Copy, Debug)]
pub struct RGBA8I;

impl Pixel for RGBA8I {
    type Encoding = (i8, i8, i8, i8);

    type RawEncoding = i8;

    type SamplerType = Integral;

    open spec fn spec_pixel_format() -> PixelFormat {
        PixelFormat { encoding: Type::Integral, format: Format::RGBA(Size::Eight, Size::Eight, Size::Eight, Size::Eight) }
    }

    fn pixel_format() -> (r: PixelFormat) {
        PixelFormat { encoding: Type::Integral, format: Format::RGBA(Size::Eight, Size::Eight, Size::Eight, Size::Eight) }
    }
}

impl ColorPixel for RGBA8I {}

impl RenderablePixel for RGBA8I {}

/// A red, green, blue and alpha 8-bit signed integral pixel format, accessed as normalized floating
/// pixels.
#[derive(Clone, Copy, Debug)]
pub struct NormRGBA8I;

impl Pixel for NormRGBA8I {
    type Encoding = (i8, i8, i8, i8);

    type RawEncoding = i8;

    type SamplerType = NormIntegral;

    open spec fn spec_pixel_format() -> PixelFormat {
        PixelFormat { encoding: Type::NormIntegral, format: Format::RGBA(Size::Eight, Size::Eight, Size::Eight, Size::Eight) }
    }

    fn pixel_format() -> (r: PixelFormat) {
        PixelFormat { encoding: Type::NormIntegral, format: Format::RGBA(Size::Eight, Size::Eight, Size::Eight, Size::Eight) }
    }
}

impl ColorPixel for NormRGBA8I {}

impl RenderablePixel for NormRGBA8I {}

/// A red, green, blue and alpha 8-bit unsigned integral pixel format.
#[derive(Clone, Copy, Debug)]
pub struct RGBA8UI;

impl Pixel for RGBA8UI {
    type Encoding = (u8, u8, u8, u8);

    type RawEncoding = u8;

    type SamplerType = Unsigned;

    open spec fn spec_pixel_format() -> PixelFormat {
        PixelFormat { encoding: Type::Unsigned, format: Format::RGBA(Size::Eight, Size::Eight, Size::Eight, Size::Eight) }
    }

    fn pixel_format() -> (r: PixelFormat) {
        PixelFormat { encoding: Type::Unsigned, format: Format::RGBA(Size::Eight, Size::Eight, Size::Eight, Size::Eight) }
    }
}

impl ColorPixel for RGBA8UI {}

impl RenderablePixel for RGBA8UI {}

/// A red, green, blue and alpha 8-bit unsigned integral pixel format, accessed as normalized
/// floating pixels.
#[derive(Clone, Copy, Debug)]
pub struct NormRGBA8UI;

impl Pixel for NormRGBA8UI {
    type Encoding = (u8, u8, u8, u8);

    type RawEncoding = u8;

    type SamplerType = NormUnsigned;

    open spec fn spec_pixel_format() -> PixelFormat {
        PixelFormat { encoding: Type::NormUnsigned, format: Format::RGBA(Size::Eight, Size::Eight, Size::Eight, Size::Eight) }
    }

    fn pixel_format() -> (r: PixelFormat) {
        PixelFormat { encoding: Type::NormUnsigned, format: Format::RGBA(Size::Eight, Size::Eight, Size::Eight, Size::Eight) }
    }
}

impl ColorPixel for NormRGBA8UI {}

impl RenderablePixel for NormRGBA8UI {}

/// A red, green, blue and alpha 16-bit signed integral pixel format.
#[derive(Clone, Copy, Debug)]
pub struct RGBA16I;

impl Pixel for RGBA16I {
    type Encoding = (i16, i16, i16, i16);

    type RawEncoding = i16;

    type SamplerType = Integral;

    open spec fn spec_pixel_format() -> PixelFormat {
        PixelFormat { encoding: Type::Integral, format: Format::RGBA(Size::Sixteen, Size::Sixteen, Size::Sixteen, Size::Sixteen) }
    }

    fn pixel_format() -> (r: PixelFormat) {
        PixelFormat { encoding: Type::Integral, format: Format::RGBA(Size::Sixteen, Size::Sixteen, Size::Sixteen, Size::Sixteen) }
    }
}

impl ColorPixel for RGBA16I {}

impl RenderablePixel for RGBA16I {}

/// A red, green, blue and alpha 16-bit signed integral pixel format, accessed as normalized
/// floating pixels.
#[derive(Clone, Copy, Debug)]
pub struct NormRGBA16I;

impl Pixel for NormRGBA16I {
    type Encoding = (i16, i16, i16, i16);

    type RawEncoding = i16;

    type SamplerType = NormIntegral;

    open spec fn spec_pixel_format() -> PixelFormat {
        PixelFormat { encoding: Type::NormIntegral, format: Format::RGBA(Size::Sixteen, Size::Sixteen, Size::Sixteen, Size::Sixteen) }
    }

    fn pixel_format() -> (r: PixelFormat) {
        PixelFormat { encoding: Type::NormIntegral, format: Format::RGBA(Size::Sixteen, Size::Sixteen, Size::Sixteen, Size::Sixteen) }
    }
}

impl ColorPixel for NormRGBA16I {}

impl RenderablePixel for NormRGBA16I {}

/// A red, green, blue and alpha 16-bit unsigned integral pixel format.
#[derive(Clone, Copy, Debug)]
pub struct RGBA16UI;

impl Pixel for RGBA16UI {
    type Encoding = (u16, u16, u16, u16);

    type RawEncoding = u16;

    type SamplerType = Unsigned;

    open spec fn spec_pixel_format() -> PixelFormat {
        PixelFormat { encoding: Type::Unsigned, format: Format::RGBA(Size::Sixteen, Size::Sixteen, Size::Sixteen, Size::Sixteen) }
    }

    fn pixel_format() -> (r: PixelFormat) {
        PixelFormat { encoding: Type::Unsigned, format: Format::RGBA(Size::Sixteen, Size::Sixteen, Size::Sixteen, Size::Sixteen) }
    }
}

impl ColorPixel for RGBA16UI {}

impl RenderablePixel for RGBA16UI {}

/// A red, green, blue and alpha 16-bit unsigned integral pixel format, accessed as normalized
/// floating pixels.
#[derive(Clone, Copy, Debug)]
pub struct NormRGBA16UI;

impl Pixel for NormRGBA16UI {
    type Encoding = (u16, u16, u16, u16);

    type RawEncoding = u16;

    type SamplerType = NormUnsigned;

    open spec fn spec_pixel_format() -> PixelFormat {
        PixelFormat { encoding: Type::NormUnsigned, format: Format::RGBA(Size::Sixteen, Size::Sixteen, Size::Sixteen, Size::Sixteen) }
    }

    fn pixel_format() -> (r: PixelFormat) {
        PixelFormat { encoding: Type::NormUnsigned, format: Format::RGBA(Size::Sixteen, Size::Sixteen, Size::Sixteen, Size::Sixteen) }
    }
}

impl ColorPixel for NormRGBA16UI {}

impl RenderablePixel for NormRGBA16UI {}

/// A red, green, blue and alpha 32-bit signed integral pixel format.
#[derive(Clone, Copy, Debug)]
pub struct RGBA32I;

impl Pixel for RGBA32I {
    type Encoding = (i32, i32, i32, i32);

    type RawEncoding = i32;

    type SamplerType = Integral;

    open spec fn spec_pixel_format() -> PixelFormat {
        PixelFormat { encoding: Type::Integral, format: Format::RGBA(Size::ThirtyTwo, Size::ThirtyTwo, Size::ThirtyTwo, Size::ThirtyTwo, ) }
    }

    fn pixel_format() -> (r: PixelFormat) {
        PixelFormat { encoding: Type::Integral, format: Format::RGBA(Size::ThirtyTwo, Size::ThirtyTwo, Size::ThirtyTwo, Size::ThirtyTwo, ) }
    }
}

impl ColorPixel for RGBA32I {}

impl RenderablePixel for RGBA32I {}

/// A red, green, blue and alpha 32-bit signed integral pixel format, accessed as normalized
/// floating pixels.
#[derive(Clone, Copy, Debug)]
pub struct NormRGBA32I;

impl Pixel for NormRGBA32I {
    type Encoding = (i32, i32, i32, i32);

    type RawEncoding = i32;

    type SamplerType = NormIntegral;

    open spec fn spec_pixel_format() -> PixelFormat {
        PixelFormat { encoding: Type::NormIntegral, format: Format::RGBA(Size::ThirtyTwo, Size::ThirtyTwo, Size::ThirtyTwo, Size::ThirtyTwo, ) }
    }

    fn pixel_format() -> (r: PixelFormat) {
        PixelFormat { encoding: Type::NormIntegral, format: Format::RGBA(Size::ThirtyTwo, Size::ThirtyTwo, Size::ThirtyTwo, Size::ThirtyTwo, ) }
    }
}

impl ColorPixel for NormRGBA32I {}

impl RenderablePixel for NormRGBA32I {}

/// A red, green, blue and alpha 32-bit unsigned integral pixel format.
#[derive(Clone, Copy, Debug)]
pub struct RGBA32UI;

impl Pixel for RGBA32UI {
    type Encoding = (u32, u32, u32, u32);

    type RawEncoding = u32;

    type SamplerType = Unsigned;

    open spec fn spec_pixel_format() -> PixelFormat {
        PixelFormat { encoding: Type::Unsigned, format: Format::RGBA(Size::ThirtyTwo, Size::ThirtyTwo, Size::ThirtyTwo, Size::ThirtyTwo, ) }
    }

    fn pixel_format() -> (r: PixelFormat) {
        PixelFormat { encoding: Type::Unsigned, format: Format::RGBA(Size::ThirtyTwo, Size::ThirtyTwo, Size::ThirtyTwo, Size::ThirtyTwo, ) }
    }
}

impl ColorPixel for RGBA32UI {}

impl RenderablePixel for RGBA32UI {}

/// A red, green, blue and alpha 32-bit unsigned integral pixel format, accessed as normalized
/// floating pixels.
#[derive(Clone, Copy, Debug)]
pub struct NormRGBA32UI;

impl Pixel for NormRGBA32UI {
    type Encoding = (u32, u32, u32, u32);

    type RawEncoding = u32;

    type SamplerType = NormUnsigned;

    open spec fn spec_pixel_format() -> PixelFormat {
        PixelFormat { encoding: Type::NormUnsigned, format: Format::RGBA(Size::ThirtyTwo, Size::ThirtyTwo, Size::ThirtyTwo, Size::ThirtyTwo, ) }
    }

    fn pixel_format() -> (r: PixelFormat) {
        PixelFormat { encoding: Type::NormUnsigned, format: Format::RGBA(Size::ThirtyTwo, Size::ThirtyTwo, Size::ThirtyTwo, Size::ThirtyTwo, ) }
    }
}

impl ColorPixel for NormRGBA32UI {}

impl RenderablePixel for NormRGBA32UI {}

/// An 8-bit unsigned integral red, green and blue pixel format in sRGB colorspace.
#[derive(Clone, Copy, Debug)]
pub struct SRGB8UI;

impl Pixel for SRGB8UI {
    type Encoding = (u8, u8, u8);

    type RawEncoding = u8;

    type SamplerType = NormUnsigned;

    open spec fn spec_pixel_format() -> PixelFormat {
        PixelFormat { encoding: Type::NormUnsigned, format: Format::SRGB(Size::Eight, Size::Eight, Size::Eight) }
    }

    fn pixel_format() -> (r: PixelFormat) {
        PixelFormat { encoding: Type::NormUnsigned, format: Format::SRGB(Size::Eight, Size::Eight, Size::Eight) }
    }
}

impl ColorPixel for SRGB8UI {}

impl RenderablePixel for SRGB8UI {}

/// An 8-bit unsigned integral red, green and blue pixel format in sRGB colorspace, with linear alpha channel.
#[derive(Clone, Copy, Debug)]
pub struct SRGBA8UI;

impl Pixel for SRGBA8UI {
    type Encoding = (u8, u8, u8, u8);

    type RawEncoding = u8;

    type SamplerType = NormUnsigned;

    open spec fn spec_pixel_format() -> PixelFormat {
        PixelFormat { encoding: Type::NormUnsigned, format: Format::SRGBA(Size::Eight, Size::Eight, Size::Eight, Size::Eight) }
    }

    fn pixel_format() -> (r: PixelFormat) {
        PixelFormat { encoding: Type::NormUnsigned, format: Format::SRGBA(Size::Eight, Size::Eight, Size::Eight, Size::Eight) }
    }
}

impl ColorPixel for SRGBA8UI {}

impl RenderablePixel for SRGBA8UI {}


/// Every pixel type reifies to a format that agrees with the rest of its definition: its
/// encoding is the type its samplers read (a normalized pixel type has a normalized encoding),
/// and each of its channels has as many bits as a value of its raw encoding.
pub proof fn law_pixel_formats_agree()
    ensures
        R8I::spec_pixel_format().encoding == <<R8I as Pixel>::SamplerType as SamplerType>::spec_sample_type(),
        R8I::spec_pixel_format().format.spec_bits() == R8I::spec_pixel_format().format.spec_canals_len() * 8
            * vstd::layout::size_of::<<R8I as Pixel>::RawEncoding>(),
        NormR8I::spec_pixel_format().encoding == <<NormR8I as Pixel>::SamplerType as SamplerType>::spec_sample_type(),
        NormR8I::spec_pixel_format().format.spec_bits() == NormR8I::spec_pixel_format().format.spec_canals_len() * 8
            * vstd::layout::size_of::<<NormR8I as Pixel>::RawEncoding>(),
        R8UI::spec_pixel_format().encoding == <<R8UI as Pixel>::SamplerType as SamplerType>::spec_sample_type(),
        R8UI::spec_pixel_format().format.spec_bits() == R8UI::spec_pixel_format().format.spec_canals_len() * 8
            * vstd::layout::size_of::<<R8UI as Pixel>::RawEncoding>(),
        NormR8UI::spec_pixel_format().encoding == <<NormR8UI as Pixel>::SamplerType as SamplerType>::spec_sample_type(),
        NormR8UI::spec_pixel_format().format.spec_bits() == NormR8UI::spec_pixel_format().format.spec_canals_len() * 8
            * vstd::layout::size_of::<<NormR8UI as Pixel>::RawEncoding>(),
        R16I::spec_pixel_format().encoding == <<R16I as Pixel>::SamplerType as SamplerType>::spec_sample_type(),
        R16I::spec_pixel_format().format.spec_bits() == R16I::spec_pixel_format().format.spec_canals_len() * 8
            * vstd::layout::size_of::<<R16I as Pixel>::RawEncoding>(),
        NormR16I::spec_pixel_format().encoding == <<NormR16I as Pixel>::SamplerType as SamplerType>::spec_sample_type(),
        NormR16I::spec_pixel_format().format.spec_bits() == NormR16I::spec_pixel_format().format.spec_canals_len() * 8
            * vstd::layout::size_of::<<NormR16I as Pixel>::RawEncoding>(),
        R16UI::spec_pixel_format().encoding == <<R16UI as Pixel>::SamplerType as SamplerType>::spec_sample_type(),
        R16UI::spec_pixel_format().format.spec_bits() == R16UI::spec_pixel_format().format.spec_canals_len() * 8
            * vstd::layout::size_of::<<R16UI as Pixel>::RawEncoding>(),
        NormR16UI::spec_pixel_format().encoding == <<NormR16UI as Pixel>::SamplerType as SamplerType>::spec_sample_type(),
        NormR16UI::spec_pixel_format().format.spec_bits() == NormR16UI::spec_pixel_format().format.spec_canals_len() * 8
            * vstd::layout::size_of::<<NormR16UI as Pixel>::RawEncoding>(),
        R32I::spec_pixel_format().encoding == <<R32I as Pixel>::SamplerType as SamplerType>::spec_sample_type(),
        R32I::spec_pixel_format().format.spec_bits() == R32I::spec_pixel_format().format.spec_canals_len() * 8
            * vstd::layout::size_of::<<R32I as Pixel>::RawEncoding>(),
        NormR32I::spec_pixel_format().encoding == <<NormR32I as Pixel>::SamplerType as SamplerType>::spec_sample_type(),
        NormR32I::spec_pixel_format().format.spec_bits() == NormR32I::spec_pixel_format().format.spec_canals_len() * 8
            * vstd::layout::size_of::<<NormR32I as Pixel>::RawEncoding>(),
        R32UI::spec_pixel_format().encoding == <<R32UI as Pixel>::SamplerType as SamplerType>::spec_sample_type(),
        R32UI::spec_pixel_format().format.spec_bits() == R32UI::spec_pixel_format().format.spec_canals_len() * 8
            * vstd::layout::size_of::<<R32UI as Pixel>::RawEncoding>(),
        NormR32UI::spec_pixel_format().encoding == <<NormR32UI as Pixel>::SamplerType as SamplerType>::spec_sample_type(),
        NormR32UI::spec_pixel_format().format.spec_bits() == NormR32UI::spec_pixel_format().format.spec_canals_len() * 8
            * vstd::layout::size_of::<<NormR32UI as Pixel>::RawEncoding>(),
        RG8I::spec_pixel_format().encoding == <<RG8I as Pixel>::SamplerType as SamplerType>::spec_sample_type(),
        RG8I::spec_pixel_format().format.spec_bits() == RG8I::spec_pixel_format().format.spec_canals_len() * 8
            * vstd::layout::size_of::<<RG8I as Pixel>::RawEncoding>(),
        NormRG8I::spec_pixel_format().encoding == <<NormRG8I as Pixel>::SamplerType as SamplerType>::spec_sample_type(),
        NormRG8I::spec_pixel_format().format.spec_bits() == NormRG8I::spec_pixel_format().format.spec_canals_len() * 8
            * vstd::layout::size_of::<<NormRG8I as Pixel>::RawEncoding>(),
        RG8UI::spec_pixel_format().encoding == <<RG8UI as Pixel>::SamplerType as SamplerType>::spec_sample_type(),
        RG8UI::spec_pixel_format().format.spec_bits() == RG8UI::spec_pixel_format().format.spec_canals_len() * 8
            * vstd::layout::size_of::<<RG8UI as Pixel>::RawEncoding>(),
        NormRG8UI::spec_pixel_format().encoding == <<NormRG8UI as Pixel>::SamplerType as SamplerType>::spec_sample_type(),
        NormRG8UI::spec_pixel_format().format.spec_bits() == NormRG8UI::spec_pixel_format().format.spec_canals_len() * 8
            * vstd::layout::size_of::<<NormRG8UI as Pixel>::RawEncoding>(),
        RG16I::spec_pixel_format().encoding == <<RG16I as Pixel>::SamplerType as SamplerType>::spec_sample_type(),
        RG16I::spec_pixel_format().format.spec_bits() == RG16I::spec_pixel_format().format.spec_canals_len() * 8
            * vstd::layout::size_of::<<RG16I as Pixel>::RawEncoding>(),
        NormRG16I::spec_pixel_format().encoding == <<NormRG16I as Pixel>::SamplerType as SamplerType>::spec_sample_type(),
        NormRG16I::spec_pixel_format().format.spec_bits() == NormRG16I::spec_pixel_format().format.spec_canals_len() * 8
            * vstd::layout::size_of::<<NormRG16I as Pixel>::RawEncoding>(),
        RG16UI::spec_pixel_format().encoding == <<RG16UI as Pixel>::SamplerType as SamplerType>::spec_sample_type(),
        RG16UI::spec_pixel_format().format.spec_bits() == RG16UI::spec_pixel_format().format.spec_canals_len() * 8
            * vstd::layout::size_of::<<RG16UI as Pixel>::RawEncoding>(),
        NormRG16UI::spec_pixel_format().encoding == <<NormRG16UI as Pixel>::SamplerType as SamplerType>::spec_sample_type(),
        NormRG16UI::spec_pixel_format().format.spec_bits() == NormRG16UI::spec_pixel_format().format.spec_canals_len() * 8
            * vstd::layout::size_of::<<NormRG16UI as Pixel>::RawEncoding>(),
        RG32I::spec_pixel_format().encoding == <<RG32I as Pixel>::SamplerType as SamplerType>::spec_sample_type(),
        RG32I::spec_pixel_format().format.spec_bits() == RG32I::spec_pixel_format().format.spec_canals_len() * 8
            * vstd::layout::size_of::<<RG32I as Pixel>::RawEncoding>(),
        NormRG32I::spec_pixel_format().encoding == <<NormRG32I as Pixel>::SamplerType as SamplerType>::spec_sample_type(),
        NormRG32I::spec_pixel_format().format.spec_bits() == NormRG32I::spec_pixel_format().format.spec_canals_len() * 8
            * vstd::layout::size_of::<<NormRG32I as Pixel>::RawEncoding>(),
        RG32UI::spec_pixel_format().encoding == <<RG32UI as Pixel>::SamplerType as SamplerType>::spec_sample_type(),
        RG32UI::spec_pixel_format().format.spec_bits() == RG32UI::spec_pixel_format().format.spec_canals_len() * 8
            * vstd::layout::size_of::<<RG32UI as Pixel>::RawEncoding>(),
        NormRG32UI::spec_pixel_format().encoding == <<NormRG32UI as Pixel>::SamplerType as SamplerType>::spec_sample_type(),
        NormRG32UI::spec_pixel_format().format.spec_bits() == NormRG32UI::spec_pixel_format().format.spec_canals_len() * 8
            * vstd::layout::size_of::<<NormRG32UI as Pixel>::RawEncoding>(),
        RGB8I::spec_pixel_format().encoding == <<RGB8I as Pixel>::SamplerType as SamplerType>::spec_sample_type(),
        RGB8I::spec_pixel_format().format.spec_bits() == RGB8I::spec_pixel_format().format.spec_canals_len() * 8
            * vstd::layout::size_of::<<RGB8I as Pixel>::RawEncoding>(),
        NormRGB8I::spec_pixel_format().encoding == <<NormRGB8I as Pixel>::SamplerType as SamplerType>::spec_sample_type(),
        NormRGB8I::spec_pixel_format().format.spec_bits() == NormRGB8I::spec_pixel_format().format.spec_canals_len() * 8
            * vstd::layout::size_of::<<NormRGB8I as Pixel>::RawEncoding>(),
        RGB8UI::spec_pixel_format().encoding == <<RGB8UI as Pixel>::SamplerType as SamplerType>::spec_sample_type(),
        RGB8UI::spec_pixel_format().format.spec_bits() == RGB8UI::spec_pixel_format().format.spec_canals_len() * 8
            * vstd::layout::size_of::<<RGB8UI as Pixel>::RawEncoding>(),
        NormRGB8UI::spec_pixel_format().encoding == <<NormRGB8UI as Pixel>::SamplerType as SamplerType>::spec_sample_type(),
        NormRGB8UI::spec_pixel_format().format.spec_bits() == NormRGB8UI::spec_pixel_format().format.spec_canals_len() * 8
            * vstd::layout::size_of::<<NormRGB8UI as Pixel>::RawEncoding>(),
        RGB16I::spec_pixel_format().encoding == <<RGB16I as Pixel>::SamplerType as SamplerType>::spec_sample_type(),
        RGB16I::spec_pixel_format().format.spec_bits() == RGB16I::spec_pixel_format().format.spec_canals_len() * 8
            * vstd::layout::size_of::<<RGB16I as Pixel>::RawEncoding>(),
        NormRGB16I::spec_pixel_format().encoding == <<NormRGB16I as Pixel>::SamplerType as SamplerType>::spec_sample_type(),
        NormRGB16I::spec_pixel_format().format.spec_bits() == NormRGB16I::spec_pixel_format().format.spec_canals_len() * 8
            * vstd::layout::size_of::<<NormRGB16I as Pixel>::RawEncoding>(),
        RGB16UI::spec_pixel_format().encoding == <<RGB16UI as Pixel>::SamplerType as SamplerType>::spec_sample_type(),
        RGB16UI::spec_pixel_format().format.spec_bits() == RGB16UI::spec_pixel_format().format.spec_canals_len() * 8
            * vstd::layout::size_of::<<RGB16UI as Pixel>::RawEncoding>(),
        NormRGB16UI::spec_pixel_format().encoding == <<NormRGB16UI as Pixel>::SamplerType as SamplerType>::spec_sample_type(),
        NormRGB16UI::spec_pixel_format().format.spec_bits() == NormRGB16UI::spec_pixel_format().format.spec_canals_len() * 8
            * vstd::layout::size_of::<<NormRGB16UI as Pixel>::RawEncoding>(),
        RGB32I::spec_pixel_format().encoding == <<RGB32I as Pixel>::SamplerType as SamplerType>::spec_sample_type(),
        RGB32I::spec_pixel_format().format.spec_bits() == RGB32I::spec_pixel_format().format.spec_canals_len() * 8
            * vstd::layout::size_of::<<RGB32I as Pixel>::RawEncoding>(),
        NormRGB32I::spec_pixel_format().encoding == <<NormRGB32I as Pixel>::SamplerType as SamplerType>::spec_sample_type(),
        NormRGB32I::spec_pixel_format().format.spec_bits() == NormRGB32I::spec_pixel_format().format.spec_canals_len() * 8
            * vstd::layout::size_of::<<NormRGB32I as Pixel>::RawEncoding>(),
        RGB32UI::spec_pixel_format().encoding == <<RGB32UI as Pixel>::SamplerType as SamplerType>::spec_sample_type(),
        RGB32UI::spec_pixel_format().format.spec_bits() == RGB32UI::spec_pixel_format().format.spec_canals_len() * 8
            * vstd::layout::size_of::<<RGB32UI as Pixel>::RawEncoding>(),
        NormRGB32UI::spec_pixel_format().encoding == <<NormRGB32UI as Pixel>::SamplerType as SamplerType>::spec_sample_type(),
        NormRGB32UI::spec_pixel_format().format.spec_bits() == NormRGB32UI::spec_pixel_format().format.spec_canals_len() * 8
            * vstd::layout::size_of::<<NormRGB32UI as Pixel>::RawEncoding>(),
        RGBA8I::spec_pixel_format().encoding == <<RGBA8I as Pixel>::SamplerType as SamplerType>::spec_sample_type(),
        RGBA8I::spec_pixel_format().format.spec_bits() == RGBA8I::spec_pixel_format().format.spec_canals_len() * 8
            * vstd::layout::size_of::<<RGBA8I as Pixel>::RawEncoding>(),
        NormRGBA8I::spec_pixel_format().encoding == <<NormRGBA8I as Pixel>::SamplerType as SamplerType>::spec_sample_type(),
        NormRGBA8I::spec_pixel_format().format.spec_bits() == NormRGBA8I::spec_pixel_format().format.spec_canals_len() * 8
            * vstd::layout::size_of::<<NormRGBA8I as Pixel>::RawEncoding>(),
        RGBA8UI::spec_pixel_format().encoding == <<RGBA8UI as Pixel>::SamplerType as SamplerType>::spec_sample_type(),
        RGBA8UI::spec_pixel_format().format.spec_bits() == RGBA8UI::spec_pixel_format().format.spec_canals_len() * 8
            * vstd::layout::size_of::<<RGBA8UI as Pixel>::RawEncoding>(),
        NormRGBA8UI::spec_pixel_format().encoding == <<NormRGBA8UI as Pixel>::SamplerType as SamplerType>::spec_sample_type(),
        NormRGBA8UI::spec_pixel_format().format.spec_bits() == NormRGBA8UI::spec_pixel_format().format.spec_canals_len() * 8
            * vstd::layout::size_of::<<NormRGBA8UI as Pixel>::RawEncoding>(),
        RGBA16I::spec_pixel_format().encoding == <<RGBA16I as Pixel>::SamplerType as SamplerType>::spec_sample_type(),
        RGBA16I::spec_pixel_format().format.spec_bits() == RGBA16I::spec_pixel_format().format.spec_canals_len() * 8
            * vstd::layout::size_of::<<RGBA16I as Pixel>::RawEncoding>(),
        NormRGBA16I::spec_pixel_format().encoding == <<NormRGBA16I as Pixel>::SamplerType as SamplerType>::spec_sample_type(),
        NormRGBA16I::spec_pixel_format().format.spec_bits() == NormRGBA16I::spec_pixel_format().format.spec_canals_len() * 8
            * vstd::layout::size_of::<<NormRGBA16I as Pixel>::RawEncoding>(),
        RGBA16UI::spec_pixel_format().encoding == <<RGBA16UI as Pixel>::SamplerType as SamplerType>::spec_sample_type(),
        RGBA16UI::spec_pixel_format().format.spec_bits() == RGBA16UI::spec_pixel_format().format.spec_canals_len() * 8
            * vstd::layout::size_of::<<RGBA16UI as Pixel>::RawEncoding>(),
        NormRGBA16UI::spec_pixel_format().encoding == <<NormRGBA16UI as Pixel>::SamplerType as SamplerType>::spec_sample_type(),
        NormRGBA16UI::spec_pixel_format().format.spec_bits() == NormRGBA16UI::spec_pixel_format().format.spec_canals_len() * 8
            * vstd::layout::size_of::<<NormRGBA16UI as Pixel>::RawEncoding>(),
        RGBA32I::spec_pixel_format().encoding == <<RGBA32I as Pixel>::SamplerType as SamplerType>::spec_sample_type(),
        RGBA32I::spec_pixel_format().format.spec_bits() == RGBA32I::spec_pixel_format().format.spec_canals_len() * 8
            * vstd::layout::size_of::<<RGBA32I as Pixel>::RawEncoding>(),
        NormRGBA32I::spec_pixel_format().encoding == <<NormRGBA32I as Pixel>::SamplerType as SamplerType>::spec_sample_type(),
        NormRGBA32I::spec_pixel_format().format.spec_bits() == NormRGBA32I::spec_pixel_format().format.spec_canals_len() * 8
            * vstd::layout::size_of::<<NormRGBA32I as Pixel>::RawEncoding>(),
        RGBA32UI::spec_pixel_format().encoding == <<RGBA32UI as Pixel>::SamplerType as SamplerType>::spec_sample_type(),
        RGBA32UI::spec_pixel_format().format.spec_bits() == RGBA32UI::spec_pixel_format().format.spec_canals_len() * 8
            * vstd::layout::size_of::<<RGBA32UI as Pixel>::RawEncoding>(),
        NormRGBA32UI::spec_pixel_format().encoding == <<NormRGBA32UI as Pixel>::SamplerType as SamplerType>::spec_sample_type(),
        NormRGBA32UI::spec_pixel_format().format.spec_bits() == NormRGBA32UI::spec_pixel_format().format.spec_canals_len() * 8
            * vstd::layout::size_of::<<NormRGBA32UI as Pixel>::RawEncoding>(),
        SRGB8UI::spec_pixel_format().encoding == <<SRGB8UI as Pixel>::SamplerType as SamplerType>::spec_sample_type(),
        SRGB8UI::spec_pixel_format().format.spec_bits() == SRGB8UI::spec_pixel_format().format.spec_canals_len() * 8
            * vstd::layout::size_of::<<SRGB8UI as Pixel>::RawEncoding>(),
        SRGBA8UI::spec_pixel_format().encoding == <<SRGBA8UI as Pixel>::SamplerType as SamplerType>::spec_sample_type(),
        SRGBA8UI::spec_pixel_format().format.spec_bits() == SRGBA8UI::spec_pixel_format().format.spec_canals_len() * 8
            * vstd::layout::size_of::<<SRGBA8UI as Pixel>::RawEncoding>(),
{
    broadcast use vstd::layout::layout_of_primitives;

}

} // verus!
