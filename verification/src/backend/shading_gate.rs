//! Shading gates backend interface.
//!
//! This interface defines the low-level API shading gates must implement to be usable.
use vstd::prelude::*;
use crate::backend::shader::Shader as ShaderBackend;

verus! {

/// Shading gate backend: making a shader program the one that renders.
pub trait ShadingGate: ShaderBackend {
    /// The shader program that renders, if one was applied.
    spec fn spec_current_program(&self) -> Option<Self::ProgramRepr>;

    /// Use a shader program for the renders that follow.
    fn apply_shader_program(&mut self, shader_program: &Self::ProgramRepr)
        ensures
            final(self).spec_current_program() == Some(*shader_program),
    ;
}

} // verus!
