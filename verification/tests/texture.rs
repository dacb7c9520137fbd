use lib::depth_test::DepthComparison;
use lib::texture::{
    CubeFace, Cubemap, Dim, Dim1, Dim1Array, Dim2, Dim2Array, Dim3, Dimensionable, MagFilter,
    MinFilter, Sampler, Wrap,
};

#[test]
fn dimensions_reify() {
    assert_eq!(Dim1::dim(), Dim::Dim1);
    assert_eq!(Dim2::dim(), Dim::Dim2);
    assert_eq!(Dim3::dim(), Dim::Dim3);
    assert_eq!(Cubemap::dim(), Dim::Cubemap);
    assert_eq!(Dim1Array::dim(), Dim::Dim1Array);
    assert_eq!(Dim2Array::dim(), Dim::Dim2Array);
}

#[test]
fn counts_are_areas_and_volumes() {
    assert_eq!(Dim1::count(7), 7);
    assert_eq!(Dim2::count([4, 3]), 12);
    assert_eq!(Dim3::count([2, 3, 4]), 24);
    assert_eq!(Cubemap::count(16), 256);
    assert_eq!(Dim1Array::count((5, 3)), 15);
    assert_eq!(Dim2Array::count(([2, 2], 6)), 24);
    assert_eq!(Dim2::count([0, 9]), 0);
}

#[test]
fn widths_heights_depths() {
    assert_eq!(Dim1::width(9), 9);
    assert_eq!(Dim1::height(9), 1);
    assert_eq!(Dim1::depth(9), 1);
    assert_eq!(Dim2::width([4, 3]), 4);
    assert_eq!(Dim2::height([4, 3]), 3);
    assert_eq!(Dim2::depth([4, 3]), 1);
    assert_eq!(Dim3::depth([2, 3, 4]), 4);
    assert_eq!(Cubemap::width(8), 8);
    assert_eq!(Cubemap::height(8), 8);
    assert_eq!(Cubemap::depth(8), 6);
    assert_eq!(Dim1Array::width((5, 3)), 5);
    assert_eq!(Dim1Array::height((5, 3)), 3);
    assert_eq!(Dim2Array::depth(([2, 7], 6)), 6);
}

#[test]
fn offsets() {
    assert_eq!(Dim1::x_offset(3), 3);
    assert_eq!(Dim1::y_offset(3), 1);
    assert_eq!(Dim1::z_offset(3), 1);
    assert_eq!(Dim2::x_offset([1, 2]), 1);
    assert_eq!(Dim2::y_offset([1, 2]), 2);
    assert_eq!(Dim3::z_offset([1, 2, 3]), 3);
    assert_eq!(Cubemap::z_offset(([0, 0], CubeFace::PositiveX)), 0);
    assert_eq!(Cubemap::z_offset(([0, 0], CubeFace::NegativeZ)), 5);
    assert_eq!(Cubemap::z_offset(([0, 0], CubeFace::NegativeY)), 3);
    assert_eq!(Dim1Array::y_offset((4, 2)), 2);
    assert_eq!(Dim2Array::z_offset(([1, 1], 9)), 9);
}

#[test]
fn zero_offsets() {
    assert_eq!(Dim1::ZERO_OFFSET, 0);
    assert_eq!(Dim2::ZERO_OFFSET, [0, 0]);
    assert_eq!(Dim3::ZERO_OFFSET, [0, 0, 0]);
    assert_eq!(Cubemap::ZERO_OFFSET, ([0, 0], CubeFace::PositiveX));
    assert_eq!(Dim1Array::ZERO_OFFSET, (0, 0));
    assert_eq!(Dim2Array::ZERO_OFFSET, ([0, 0], 0));
}

#[test]
fn default_sampler() {
    let s = Sampler::default();
    assert_eq!(s.wrap_r, Wrap::ClampToEdge);
    assert_eq!(s.wrap_s, Wrap::ClampToEdge);
    assert_eq!(s.wrap_t, Wrap::ClampToEdge);
    assert_eq!(s.min_filter, MinFilter::NearestMipmapLinear);
    assert_eq!(s.mag_filter, MagFilter::Linear);
    assert_eq!(s.depth_comparison, None);
    let t = Sampler {
        depth_comparison: Some(DepthComparison::Less),
        ..s
    };
    assert_ne!(s, t);
}
