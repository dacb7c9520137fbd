//! GPU render state.
//!
//! Such a state controls how the GPU must operate some fixed pipeline functionality, such as the
//! blending, depth test or face culling operations.
use vstd::prelude::*;
use crate::blending::{Blending, BlendingMode};
use crate::depth_test::{DepthComparison, DepthWrite};
use crate::face_culling::FaceCulling;

verus! {

/// GPU render state.
///
/// You can get a default value with `RenderState::default` and set the operations you want with the
/// various `RenderState::set_*` methods.
#[derive(Clone, Debug, PartialEq, Eq, Structural)]
pub struct RenderState {
    /// Blending configuration.
    blending: Option<BlendingMode>,
    /// Depth test configuration.
    depth_test: Option<DepthComparison>,
    /// Depth write configuration.
    depth_write: DepthWrite,
    /// Face culling configuration.
    face_culling: Option<FaceCulling>,
}

/// The blending mode that an optional combined blending configuration stands for.
pub open spec fn combined(blending: Option<Blending>) -> Option<BlendingMode> {
    match blending {
        Some(b) => Some(BlendingMode::Combined(b)),
        None => None,
    }
}

impl RenderState {
    /// Blending configuration of the state.
    pub closed spec fn spec_blending(self) -> Option<BlendingMode> {
        self.blending
    }

    /// Depth test configuration of the state.
    pub closed spec fn spec_depth_test(self) -> Option<DepthComparison> {
        self.depth_test
    }

    /// Depth write configuration of the state.
    pub closed spec fn spec_depth_write(self) -> DepthWrite {
        self.depth_write
    }

    /// Face culling configuration of the state.
    pub closed spec fn spec_face_culling(self) -> Option<FaceCulling> {
        self.face_culling
    }

    /// Override the blending configuration.
    pub fn set_blending<B>(self, blending: B) -> (r: Self) where B: Into<Option<Blending>>
        ensures
            exists|o: Option<Blending>|
                #![trigger combined(o)]
                call_ensures(B::into, (blending,), o) && r.spec_blending() == combined(o),
            r.spec_depth_test() == self.spec_depth_test(),
            r.spec_depth_write() == self.spec_depth_write(),
            r.spec_face_culling() == self.spec_face_culling(),
    {
        let o: Option<Blending> = blending.into();
        let mode = match o {
            Some(b) => Some(BlendingMode::Combined(b)),
            None => None,
        };
        assert(combined(o) == mode);
        RenderState { blending: mode, ..self }
    }

    /// Override the blending configuration using separate blending.
    pub fn set_blending_separate(self, blending_rgb: Blending, blending_alpha: Blending) -> (r:
        Self)
        ensures
            r.spec_blending() == Some(
                BlendingMode::Separate { rgb: blending_rgb, alpha: blending_alpha },
            ),
            r.spec_depth_test() == self.spec_depth_test(),
            r.spec_depth_write() == self.spec_depth_write(),
            r.spec_face_culling() == self.spec_face_culling(),
    {
        RenderState {
            blending: Some(BlendingMode::Separate { rgb: blending_rgb, alpha: blending_alpha }),
            ..self
        }
    }

    /// Blending configuration.
    pub fn blending(&self) -> (r: Option<BlendingMode>)
        ensures
            r == self.spec_blending(),
    {
        self.blending
    }

    /// Override the depth test configuration.
    pub fn set_depth_test<D>(self, depth_test: D) -> (r: Self) where D: Into<Option<DepthComparison>>
        ensures
            call_ensures(D::into, (depth_test,), r.spec_depth_test()),
            r.spec_blending() == self.spec_blending(),
            r.spec_depth_write() == self.spec_depth_write(),
            r.spec_face_culling() == self.spec_face_culling(),
    {
        let depth_test = depth_test.into();
        RenderState { depth_test, ..self }
    }

    /// Depth test configuration.
    pub fn depth_test(&self) -> (r: Option<DepthComparison>)
        ensures
            r == self.spec_depth_test(),
    {
        self.depth_test
    }

    /// Override the depth write configuration.
    pub fn set_depth_write(self, depth_write: DepthWrite) -> (r: Self)
        ensures
            r.spec_depth_write() == depth_write,
            r.spec_blending() == self.spec_blending(),
            r.spec_depth_test() == self.spec_depth_test(),
            r.spec_face_culling() == self.spec_face_culling(),
    {
        RenderState { depth_write, ..self }
    }

    /// Depth write configuration.
    pub fn depth_write(&self) -> (r: DepthWrite)
        ensures
            r == self.spec_depth_write(),
    {
        self.depth_write
    }

    /// Override the face culling configuration.
    pub fn set_face_culling<FC>(self, face_culling: FC) -> (r: Self) where
        FC: Into<Option<FaceCulling>>,
        ensures
            call_ensures(FC::into, (face_culling,), r.spec_face_culling()),
            r.spec_blending() == self.spec_blending(),
            r.spec_depth_test() == self.spec_depth_test(),
            r.spec_depth_write() == self.spec_depth_write(),
    {
        RenderState { face_culling: face_culling.into(), ..self }
    }

    /// Face culling configuration.
    pub fn face_culling(&self) -> (r: Option<FaceCulling>)
        ensures
            r == self.spec_face_culling(),
    {
        self.face_culling
    }
}

impl Default for RenderState {
    /// The default `RenderState`.
    ///
    ///   - `blending`: `None`
    ///   - `depth_test`: `Some(DepthComparison::Less)`
    ///   - `depth_write`: `DepthWrite::On`
    ///   - `face_culling`: `None`
    fn default() -> (r: Self)
        ensures
            r.spec_blending() == None::<BlendingMode>,
            r.spec_depth_test() == Some(DepthComparison::Less),
            r.spec_depth_write() == DepthWrite::On,
            r.spec_face_culling() == None::<FaceCulling>,
    {
        RenderState {
            blending: None,
            depth_test: Some(DepthComparison::Less),
            depth_write: DepthWrite::On,
            face_culling: None,
        }
    }
}

} // verus!
