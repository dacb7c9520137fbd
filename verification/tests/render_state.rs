use lib::blending::{Blending, BlendingMode, Equation, Factor};
use lib::depth_test::{DepthComparison, DepthWrite};
use lib::face_culling::{FaceCulling, FaceCullingMode, FaceCullingOrder};
use lib::render_state::RenderState;

fn additive() -> Blending {
    Blending {
        equation: Equation::Additive,
        src: Factor::SrcAlpha,
        dst: Factor::SrcAlphaComplement,
    }
}

#[test]
fn default_render_state() {
    let st = RenderState::default();
    assert_eq!(st.blending(), None);
    assert_eq!(st.depth_test(), Some(DepthComparison::Less));
    assert_eq!(st.depth_write(), DepthWrite::On);
    assert_eq!(st.face_culling(), None);
}

#[test]
fn set_blending_combines() {
    let st = RenderState::default().set_blending(additive());
    assert_eq!(st.blending(), Some(BlendingMode::Combined(additive())));
    assert_eq!(st.depth_test(), Some(DepthComparison::Less));
    let st = st.set_blending(None);
    assert_eq!(st.blending(), None);
}

#[test]
fn set_blending_separate_keeps_both() {
    let alpha = Blending {
        equation: Equation::Max,
        src: Factor::One,
        dst: Factor::Zero,
    };
    let st = RenderState::default().set_blending_separate(additive(), alpha);
    assert_eq!(
        st.blending(),
        Some(BlendingMode::Separate {
            rgb: additive(),
            alpha
        })
    );
    assert_eq!(st.depth_write(), DepthWrite::On);
}

#[test]
fn set_depth_test_and_write() {
    let st = RenderState::default()
        .set_depth_test(DepthComparison::GreaterOrEqual)
        .set_depth_write(DepthWrite::Off);
    assert_eq!(st.depth_test(), Some(DepthComparison::GreaterOrEqual));
    assert_eq!(st.depth_write(), DepthWrite::Off);
    let st = st.set_depth_test(None);
    assert_eq!(st.depth_test(), None);
    assert_eq!(st.depth_write(), DepthWrite::Off);
    assert_eq!(st.blending(), None);
}

#[test]
fn set_face_culling_keeps_the_rest() {
    let fc = FaceCulling::new(FaceCullingOrder::CW, FaceCullingMode::Both);
    let st = RenderState::default().set_face_culling(fc);
    assert_eq!(st.face_culling(), Some(fc));
    assert_eq!(st.depth_test(), Some(DepthComparison::Less));
    assert_eq!(st.clone().set_face_culling(None).face_culling(), None);
}

#[test]
fn face_culling_defaults() {
    assert_eq!(
        FaceCulling::default(),
        FaceCulling {
            order: FaceCullingOrder::CCW,
            mode: FaceCullingMode::Back
        }
    );
}

#[test]
fn blending_converts_to_combined_mode() {
    assert_eq!(BlendingMode::from(additive()), BlendingMode::Combined(additive()));
}
