use lib::pixel::{
    Format, Integral, NormRGB8UI, NormRGBA8UI, NormUnsigned, Pixel, PixelFormat, SamplerType, Size,
    Type, Unsigned, R8I, RG16UI, RGB32I, RGBA8UI, SRGB8UI, SRGBA8UI,
};

#[test]
fn pixel_types_reify_their_format() {
    assert_eq!(
        R8I::pixel_format(),
        PixelFormat {
            encoding: Type::Integral,
            format: Format::R(Size::Eight)
        }
    );
    assert_eq!(
        RG16UI::pixel_format(),
        PixelFormat {
            encoding: Type::Unsigned,
            format: Format::RG(Size::Sixteen, Size::Sixteen)
        }
    );
    assert_eq!(
        RGB32I::pixel_format(),
        PixelFormat {
            encoding: Type::Integral,
            format: Format::RGB(Size::ThirtyTwo, Size::ThirtyTwo, Size::ThirtyTwo)
        }
    );
    assert_eq!(
        NormRGBA8UI::pixel_format(),
        PixelFormat {
            encoding: Type::NormUnsigned,
            format: Format::RGBA(Size::Eight, Size::Eight, Size::Eight, Size::Eight)
        }
    );
    assert_eq!(
        SRGB8UI::pixel_format(),
        PixelFormat {
            encoding: Type::NormUnsigned,
            format: Format::SRGB(Size::Eight, Size::Eight, Size::Eight)
        }
    );
    assert_eq!(
        SRGBA8UI::pixel_format(),
        PixelFormat {
            encoding: Type::NormUnsigned,
            format: Format::SRGBA(Size::Eight, Size::Eight, Size::Eight, Size::Eight)
        }
    );
}

#[test]
fn sampler_types_reify_their_type() {
    assert_eq!(Integral::sample_type(), Type::Integral);
    assert_eq!(Unsigned::sample_type(), Type::Unsigned);
    assert_eq!(NormUnsigned::sample_type(), Type::NormUnsigned);
}

#[test]
fn color_and_depth_formats() {
    let color = RGBA8UI::pixel_format();
    assert!(color.is_color_pixel());
    assert!(!color.is_depth_pixel());
    let depth = PixelFormat {
        encoding: Type::Floating,
        format: Format::Depth(Size::ThirtyTwo),
    };
    assert!(depth.is_depth_pixel());
    assert!(!depth.is_color_pixel());
}

#[test]
fn canals_count_the_channels() {
    assert_eq!(R8I::pixel_format().canals_len(), 1);
    assert_eq!(RG16UI::pixel_format().canals_len(), 2);
    assert_eq!(NormRGB8UI::pixel_format().canals_len(), 3);
    assert_eq!(RGBA8UI::pixel_format().canals_len(), 4);
    assert_eq!(SRGB8UI::pixel_format().canals_len(), 3);
    assert_eq!(SRGBA8UI::pixel_format().canals_len(), 4);
    let depth = PixelFormat {
        encoding: Type::Floating,
        format: Format::Depth(Size::ThirtyTwo),
    };
    assert_eq!(depth.canals_len(), 1);
}

#[test]
fn channel_sizes_in_bits() {
    assert_eq!(Size::Eight.bits(), 8);
    assert_eq!(Size::Ten.bits(), 10);
    assert_eq!(Size::Eleven.bits(), 11);
    assert_eq!(Size::Sixteen.bits(), 16);
    assert_eq!(Size::ThirtyTwo.bits(), 32);
}

#[test]
fn format_sizes_in_bytes() {
    assert_eq!(Format::R(Size::Eight).size(), 1);
    assert_eq!(Format::RG(Size::Sixteen, Size::Sixteen).size(), 4);
    assert_eq!(Format::RGB(Size::Eight, Size::Eight, Size::Eight).size(), 3);
    assert_eq!(
        Format::RGBA(Size::ThirtyTwo, Size::ThirtyTwo, Size::ThirtyTwo, Size::ThirtyTwo).size(),
        16
    );
    assert_eq!(Format::RGB(Size::Eleven, Size::Eleven, Size::Ten).size(), 4);
    assert_eq!(Format::SRGBA(Size::Eight, Size::Eight, Size::Eight, Size::Eight).size(), 4);
    assert_eq!(Format::Depth(Size::ThirtyTwo).size(), 4);
    assert_eq!(Format::R(Size::Ten).size(), 1);
}

#[test]
fn formats_print_as_derived() {
    assert_eq!(Size::Eleven.debug_text(), "Eleven");
    assert_eq!(Type::NormIntegral.debug_text(), "NormIntegral");
    assert_eq!(
        Format::RGB(Size::Eleven, Size::Eleven, Size::Ten).debug_text(),
        "RGB(Eleven, Eleven, Ten)"
    );
    assert_eq!(Format::Depth(Size::ThirtyTwo).debug_text(), "Depth(ThirtyTwo)");
    assert_eq!(
        R8I::pixel_format().debug_text(),
        "PixelFormat { encoding: Integral, format: R(Eight) }"
    );
    assert_eq!(format!("{:?}", R8I::pixel_format()), R8I::pixel_format().debug_text());
    assert_eq!(
        format!("{:?}", SRGBA8UI::pixel_format()),
        SRGBA8UI::pixel_format().debug_text()
    );
}
