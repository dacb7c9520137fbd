//! Shader stages, programs and uniforms.
//!
//! This module contains everything related to _shaders_. Shader programs — shaders, for short —
//! are GPU binaries that run to perform a series of transformation. Typically run when a draw
//! command is issued, they are responsible for:
//!
//! - Transforming vertex data. This is done in a _vertex shader_.
//! - Tessellating primitive patches. This is done in _tessellation shaders_.
//! - Filtering, transforming again or even generating new vertices and primitives. This is done
//!   by the _geometry shader_.
//! - And finally, outputting a color for each _fragment_ covered by the objects you render. This
//!   is done by the _fragment shader_.
//!
//! Building a program and asking for its uniforms can fail or warn; this module holds the stage
//! types, the errors and warnings, and the uniform handles.
use std::marker::PhantomData;
use vstd::prelude::*;
use vstd::std_specs::convert::FromSpecImpl;
use crate::backend::shader::{spec_uniform_answer, LinkedStages, Shader, Uniformable};
use crate::context::GraphicsContext;
use crate::conversions::borrow_str;
use crate::vertex::Semantics;

verus! {

/// A shader stage type.
#[derive(Clone, Copy, Debug, PartialEq, Eq, Structural)]
pub enum StageType {
    /// Vertex shader.
    VertexShader,
    /// Tessellation control shader.
    TessellationControlShader,
    /// Tessellation evaluation shader.
    TessellationEvaluationShader,
    /// Geometry shader.
    GeometryShader,
    /// Fragment shader.
    FragmentShader,
}

impl StageType {
    /// The human-readable name of the stage type.
    pub open spec fn spec_text(self) -> Seq<char> {
        match self {
            StageType::VertexShader => "vertex shader"@,
            StageType::TessellationControlShader => "tessellation control shader"@,
            StageType::TessellationEvaluationShader => "tessellation evaluation shader"@,
            StageType::GeometryShader => "geometry shader"@,
            StageType::FragmentShader => "fragment shader"@,
        }
    }

    /// The human-readable name of the stage type.
    pub fn to_string(&self) -> (r: String)
        ensures
            r@ == self.spec_text(),
    {
        match self {
            StageType::VertexShader => String::from_str("vertex shader"),
            StageType::TessellationControlShader => String::from_str(
                "tessellation control shader",
            ),
            StageType::TessellationEvaluationShader => String::from_str(
                "tessellation evaluation shader",
            ),
            StageType::GeometryShader => String::from_str("geometry shader"),
            StageType::FragmentShader => String::from_str("fragment shader"),
        }
    }
}

/// Errors that shader stages can emit.
#[non_exhaustive]
#[derive(Clone, Debug)]
pub enum StageError {
    /// Occurs when a shader fails to compile.
    CompilationFailed(StageType, String),
    /// Occurs when you try to create a shader which type is not supported on the current hardware.
    UnsupportedType(StageType),
}

impl StageError {
    /// Occurs when a shader fails to compile.
    pub fn compilation_failed<R>(ty: StageType, reason: R) -> (r: Self) where R: Into<String>
        ensures
            r matches StageError::CompilationFailed(t, s) && t == ty && call_ensures(
                R::into,
                (reason,),
                s,
            ),
    {
        StageError::CompilationFailed(ty, reason.into())
    }

    /// Occurs when you try to create a shader which type is not supported on the current hardware.
    pub fn unsupported_type(ty: StageType) -> (r: Self)
        ensures
            r == StageError::UnsupportedType(ty),
    {
        StageError::UnsupportedType(ty)
    }

    /// The human-readable message of the error.
    pub open spec fn spec_text(self) -> Seq<char> {
        match self {
            StageError::CompilationFailed(ty, r) => ty.spec_text() + " compilation error: "@ + r@,
            StageError::UnsupportedType(ty) => "unsupported "@ + ty.spec_text(),
        }
    }

    /// The human-readable message of the error.
    pub fn to_string(&self) -> (r: String)
        ensures
            r@ == self.spec_text(),
    {
        match self {
            StageError::CompilationFailed(ty, r) => {
                let mut s = ty.to_string();
                s.append(" compilation error: ");
                s.append(r.as_str());
                s
            },
            StageError::UnsupportedType(ty) => {
                let mut s = String::from_str("unsupported ");
                let t = ty.to_string();
                s.append(t.as_str());
                s
            },
        }
    }
}

impl From<StageError> for ProgramError {
    fn from(e: StageError) -> (r: Self) {
        ProgramError::StageError(e)
    }
}

impl FromSpecImpl<StageError> for ProgramError {
    open spec fn obeys_from_spec() -> bool {
        true
    }

    open spec fn from_spec(e: StageError) -> Self {
        ProgramError::StageError(e)
    }
}

/// Tessellation stages.
///
/// - The `control` stage represents the _tessellation control stage_, which is invoked first.
/// - The `evaluation` stage represents the _tessellation evaluation stage_, which is invoked after
///   the control stage has finished.
///
/// # Parametricity
///
/// - `S` is the representation of the stage. Depending on the interface you choose to create a
///   program, it might be a stage or something akin to [`&str`] / [`String`].
///
/// [`&str`]: str
pub struct TessellationStages<'a, S> where S: ?Sized {
    /// Tessellation control representation.
    pub control: &'a S,
    /// Tessellation evaluation representation.
    pub evaluation: &'a S,
}

/// Errors that a program can generate.
#[non_exhaustive]
#[derive(Debug)]
pub enum ProgramError {
    /// Creating the program failed.
    CreationFailed(String),
    /// A shader stage failed to compile or validate its state.
    StageError(StageError),
    /// Program link failed. You can inspect the reason by looking at the contained [`String`].
    LinkFailed(String),
    /// A program warning.
    Warning(ProgramWarning),
}

impl ProgramError {
    /// Creating the program failed.
    pub fn creation_failed<R>(reason: R) -> (r: Self) where R: Into<String>
        ensures
            r matches ProgramError::CreationFailed(s) && call_ensures(R::into, (reason,), s),
    {
        ProgramError::CreationFailed(reason.into())
    }

    /// A shader stage failed to compile or validate its state.
    pub fn stage_error(e: StageError) -> (r: Self)
        ensures
            r == ProgramError::StageError(e),
    {
        ProgramError::StageError(e)
    }

    /// Program link failed. You can inspect the reason by looking at the contained [`String`].
    pub fn link_failed<R>(reason: R) -> (r: Self) where R: Into<String>
        ensures
            r matches ProgramError::LinkFailed(s) && call_ensures(R::into, (reason,), s),
    {
        ProgramError::LinkFailed(reason.into())
    }

    /// A program warning.
    pub fn warning(w: ProgramWarning) -> (r: Self)
        ensures
            r == ProgramError::Warning(w),
    {
        ProgramError::Warning(w)
    }

    /// The human-readable message of the error.
    pub open spec fn spec_text(self) -> Seq<char> {
        match self {
            ProgramError::CreationFailed(e) => "cannot create shader program: "@ + e@,
            ProgramError::StageError(e) => "shader program has stage error: "@ + e.spec_text(),
            ProgramError::LinkFailed(s) => "shader program failed to link: "@ + s@,
            ProgramError::Warning(e) => "shader program warning: "@ + e.spec_text(),
        }
    }

    /// The human-readable message of the error.
    pub fn to_string(&self) -> (r: String)
        ensures
            r@ == self.spec_text(),
    {
        match self {
            ProgramError::CreationFailed(e) => {
                let mut s = String::from_str("cannot create shader program: ");
                s.append(e.as_str());
                s
            },
            ProgramError::StageError(e) => {
                let mut s = String::from_str("shader program has stage error: ");
                let t = e.to_string();
                s.append(t.as_str());
                s
            },
            ProgramError::LinkFailed(e) => {
                let mut s = String::from_str("shader program failed to link: ");
                s.append(e.as_str());
                s
            },
            ProgramError::Warning(e) => {
                let mut s = String::from_str("shader program warning: ");
                let t = e.to_string();
                s.append(t.as_str());
                s
            },
        }
    }
}

/// Program warnings, not necessarily considered blocking errors.
#[derive(Debug)]
pub enum ProgramWarning {
    /// Some uniform configuration is ill-formed. It can be a problem of inactive uniform, mismatch
    /// type, etc. Check the [`UniformWarning`] type for more information.
    Uniform(UniformWarning),
    /// Some vertex attribute is ill-formed.
    VertexAttrib(VertexAttribWarning),
}

impl ProgramWarning {
    /// The human-readable message of the warning.
    pub open spec fn spec_text(self) -> Seq<char> {
        match self {
            ProgramWarning::Uniform(e) => "uniform warning: "@ + e.spec_text(),
            ProgramWarning::VertexAttrib(e) => "vertex attribute warning: "@ + e.spec_text(),
        }
    }

    /// The human-readable message of the warning.
    pub fn to_string(&self) -> (r: String)
        ensures
            r@ == self.spec_text(),
    {
        match self {
            ProgramWarning::Uniform(e) => {
                let mut s = String::from_str("uniform warning: ");
                let t = e.to_string();
                s.append(t.as_str());
                s
            },
            ProgramWarning::VertexAttrib(e) => {
                let mut s = String::from_str("vertex attribute warning: ");
                let t = e.to_string();
                s.append(t.as_str());
                s
            },
        }
    }
}

impl From<ProgramWarning> for ProgramError {
    fn from(e: ProgramWarning) -> (r: Self) {
        ProgramError::Warning(e)
    }
}

impl FromSpecImpl<ProgramWarning> for ProgramError {
    open spec fn obeys_from_spec() -> bool {
        true
    }

    open spec fn from_spec(e: ProgramWarning) -> Self {
        ProgramError::Warning(e)
    }
}

/// Warnings related to uniform issues.
#[non_exhaustive]
#[derive(Debug)]
pub enum UniformWarning {
    /// Inactive uniform (not in use / no participation to the final output in shaders).
    Inactive(String),
    /// Type mismatch between the static requested type (i.e. the `T` in [`Uniform<T>`] for instance)
    /// and the type that got reflected from the backend in the shaders.
    ///
    /// The first [`String`] is the name of the uniform; the second one gives the type mismatch.
    TypeMismatch(String, UniformType),
}

impl UniformWarning {
    /// Create an inactive uniform warning.
    pub fn inactive<N>(name: N) -> (r: Self) where N: Into<String>
        ensures
            r matches UniformWarning::Inactive(s) && call_ensures(N::into, (name,), s),
    {
        UniformWarning::Inactive(name.into())
    }

    /// Create a type mismatch.
    pub fn type_mismatch<N>(name: N, ty: UniformType) -> (r: Self) where N: Into<String>
        ensures
            r matches UniformWarning::TypeMismatch(s, t) && t == ty && call_ensures(
                N::into,
                (name,),
                s,
            ),
    {
        UniformWarning::TypeMismatch(name.into(), ty)
    }

    /// The human-readable message of the warning.
    pub open spec fn spec_text(self) -> Seq<char> {
        match self {
            UniformWarning::Inactive(s) => "inactive "@ + s@ + " uniform"@,
            UniformWarning::TypeMismatch(n, t) => "type mismatch for uniform "@ + n@ + ": "@
                + t.spec_text(),
        }
    }

    /// The human-readable message of the warning.
    pub fn to_string(&self) -> (r: String)
        ensures
            r@ == self.spec_text(),
    {
        match self {
            UniformWarning::Inactive(n) => {
                let mut s = String::from_str("inactive ");
                s.append(n.as_str());
                s.append(" uniform");
                s
            },
            UniformWarning::TypeMismatch(n, t) => {
                let mut s = String::from_str("type mismatch for uniform ");
                s.append(n.as_str());
                s.append(": ");
                let u = t.to_string();
                s.append(u.as_str());
                s
            },
        }
    }
}

impl From<UniformWarning> for ProgramWarning {
    fn from(e: UniformWarning) -> (r: Self) {
        ProgramWarning::Uniform(e)
    }
}

impl FromSpecImpl<UniformWarning> for ProgramWarning {
    open spec fn obeys_from_spec() -> bool {
        true
    }

    open spec fn from_spec(e: UniformWarning) -> Self {
        ProgramWarning::Uniform(e)
    }
}

/// Warnings related to vertex attributes issues.
#[non_exhaustive]
#[derive(Debug)]
pub enum VertexAttribWarning {
    /// Inactive vertex attribute (not read).
    Inactive(String),
}

impl VertexAttribWarning {
    /// Inactive vertex attribute (not read).
    pub fn inactive<N>(attrib: N) -> (r: Self) where N: Into<String>
        ensures
            r matches VertexAttribWarning::Inactive(s) && call_ensures(N::into, (attrib,), s),
    {
        VertexAttribWarning::Inactive(attrib.into())
    }

    /// The human-readable message of the warning.
    pub open spec fn spec_text(self) -> Seq<char> {
        match self {
            VertexAttribWarning::Inactive(s) => "inactive "@ + s@ + " vertex attribute"@,
        }
    }

    /// The human-readable message of the warning.
    pub fn to_string(&self) -> (r: String)
        ensures
            r@ == self.spec_text(),
    {
        match self {
            VertexAttribWarning::Inactive(n) => {
                let mut s = String::from_str("inactive ");
                s.append(n.as_str());
                s.append(" vertex attribute");
                s
            },
        }
    }
}

impl From<VertexAttribWarning> for ProgramWarning {
    fn from(e: VertexAttribWarning) -> (r: Self) {
        ProgramWarning::VertexAttrib(e)
    }
}

impl FromSpecImpl<VertexAttribWarning> for ProgramWarning {
    open spec fn obeys_from_spec() -> bool {
        true
    }

    open spec fn from_spec(e: VertexAttribWarning) -> Self {
        ProgramWarning::VertexAttrib(e)
    }
}

/// A GPU shader program environment variable.
///
/// A uniform is a special variable that can be used to send data to a GPU. Several
/// forms exist, but the idea is that `T` represents the data you want to send. Some exceptions
/// exist that allow to pass _indirect_ data — such as buffer bindings to pass a buffer, or
/// texture bindings to pass a texture in order to fetch from it in a shader stage.
///
/// Uniforms are meant to be handed out by backends, through uniform interfaces.
///
/// # Parametricity
///
/// - `T` is the type of data you want to be able to set in a shader program.
#[derive(Debug)]
pub struct Uniform<T> where T: ?Sized {
    index: i32,
    _t: PhantomData<T>,
}

impl<T> Uniform<T> where T: ?Sized {
    /// The internal index of the uniform.
    pub closed spec fn spec_index(&self) -> i32 {
        self.index
    }

    /// Create a new [`Uniform`].
    ///
    /// This method must be used **only** by backends. If you end up using it,
    /// then you’re doing something wrong.
    pub fn new(index: i32) -> (r: Self)
        ensures
            r.spec_index() == index,
    {
        Uniform { index, _t: PhantomData }
    }

    /// Retrieve the internal index.
    ///
    /// Even though that function is safe, you have no reason to use it.
    pub fn index(&self) -> (r: i32)
        ensures
            r == self.spec_index(),
    {
        self.index
    }
}

/// Type of a uniform.
///
/// This is an exhaustive list of possible types of value you can send to a shader program.
/// A [`UniformType`] is associated to any type that can be considered sent to a shader program.
#[derive(Clone, Copy, Debug, PartialEq, Eq, Structural)]
pub enum UniformType {
    /// 32-bit signed integer.
    Int,
    /// 32-bit unsigned integer.
    UInt,
    /// 32-bit floating-point number.
    Float,
    /// Boolean.
    Bool,
    /// 2D signed integral vector.
    IVec2,
    /// 3D signed integral vector.
    IVec3,
    /// 4D signed integral vector.
    IVec4,
    /// 2D unsigned integral vector.
    UIVec2,
    /// 3D unsigned integral vector.
    UIVec3,
    /// 4D unsigned integral vector.
    UIVec4,
    /// 2D floating-point vector.
    Vec2,
    /// 3D floating-point vector.
    Vec3,
    /// 4D floating-point vector.
    Vec4,
    /// 2D boolean vector.
    BVec2,
    /// 3D boolean vector.
    BVec3,
    /// 4D boolean vector.
    BVec4,
    /// 2×2 floating-point matrix.
    M22,
    /// 3×3 floating-point matrix.
    M33,
    /// 4×4 floating-point matrix.
    M44,
    /// Signed integral 1D texture sampler.
    ISampler1D,
    /// Signed integral 2D texture sampler.
    ISampler2D,
    /// Signed integral 3D texture sampler.
    ISampler3D,
    /// Signed integral 1D array texture sampler.
    ISampler1DArray,
    /// Signed integral 2D array texture sampler.
    ISampler2DArray,
    /// Unsigned integral 1D texture sampler.
    UISampler1D,
    /// Unsigned integral 2D texture sampler.
    UISampler2D,
    /// Unsigned integral 3D texture sampler.
    UISampler3D,
    /// Unsigned integral 1D array texture sampler.
    UISampler1DArray,
    /// Unsigned integral 2D array texture sampler.
    UISampler2DArray,
    /// Floating-point 1D texture sampler.
    Sampler1D,
    /// Floating-point 2D texture sampler.
    Sampler2D,
    /// Floating-point 3D texture sampler.
    Sampler3D,
    /// Floating-point 1D array texture sampler.
    Sampler1DArray,
    /// Floating-point 2D array texture sampler.
    Sampler2DArray,
    /// Signed cubemap sampler.
    ICubemap,
    /// Unsigned cubemap sampler.
    UICubemap,
    /// Floating-point cubemap sampler.
    Cubemap,
    /// Buffer binding; used for UBOs.
    BufferBinding,
}

impl UniformType {
    /// The GLSL name of the type.
    pub open spec fn spec_text(self) -> Seq<char> {
        match self {
            UniformType::Int => "int"@,
            UniformType::UInt => "uint"@,
            UniformType::Float => "float"@,
            UniformType::Bool => "bool"@,
            UniformType::IVec2 => "ivec2"@,
            UniformType::IVec3 => "ivec3"@,
            UniformType::IVec4 => "ivec4"@,
            UniformType::UIVec2 => "uvec2"@,
            UniformType::UIVec3 => "uvec3"@,
            UniformType::UIVec4 => "uvec4"@,
            UniformType::Vec2 => "vec2"@,
            UniformType::Vec3 => "vec3"@,
            UniformType::Vec4 => "vec4"@,
            UniformType::BVec2 => "bvec2"@,
            UniformType::BVec3 => "bvec3"@,
            UniformType::BVec4 => "bvec4"@,
            UniformType::M22 => "mat2"@,
            UniformType::M33 => "mat3"@,
            UniformType::M44 => "mat4"@,
            UniformType::ISampler1D => "isampler1D"@,
            UniformType::ISampler2D => "isampler2D"@,
            UniformType::ISampler3D => "isampler3D"@,
            UniformType::ISampler1DArray => "isampler1DArray"@,
            UniformType::ISampler2DArray => "isampler2DArray"@,
            UniformType::UISampler1D => "usampler1D"@,
            UniformType::UISampler2D => "usampler2D"@,
            UniformType::UISampler3D => "usampler3D"@,
            UniformType::UISampler1DArray => "usampler1DArray"@,
            UniformType::UISampler2DArray => "usampler2DArray"@,
            UniformType::Sampler1D => "sampler1D"@,
            UniformType::Sampler2D => "sampler2D"@,
            UniformType::Sampler3D => "sampler3D"@,
            UniformType::Sampler1DArray => "sampler1DArray"@,
            UniformType::Sampler2DArray => "sampler2DArray"@,
            UniformType::ICubemap => "isamplerCube"@,
            UniformType::UICubemap => "usamplerCube"@,
            UniformType::Cubemap => "samplerCube"@,
            UniformType::BufferBinding => "buffer binding"@,
        }
    }

    /// The GLSL name of the type.
    pub fn to_string(&self) -> (r: String)
        ensures
            r@ == self.spec_text(),
    {
        match self {
            UniformType::Int => String::from_str("int"),
            UniformType::UInt => String::from_str("uint"),
            UniformType::Float => String::from_str("float"),
            UniformType::Bool => String::from_str("bool"),
            UniformType::IVec2 => String::from_str("ivec2"),
            UniformType::IVec3 => String::from_str("ivec3"),
            UniformType::IVec4 => String::from_str("ivec4"),
            UniformType::UIVec2 => String::from_str("uvec2"),
            UniformType::UIVec3 => String::from_str("uvec3"),
            UniformType::UIVec4 => String::from_str("uvec4"),
            UniformType::Vec2 => String::from_str("vec2"),
            UniformType::Vec3 => String::from_str("vec3"),
            UniformType::Vec4 => String::from_str("vec4"),
            UniformType::BVec2 => String::from_str("bvec2"),
            UniformType::BVec3 => String::from_str("bvec3"),
            UniformType::BVec4 => String::from_str("bvec4"),
            UniformType::M22 => String::from_str("mat2"),
            UniformType::M33 => String::from_str("mat3"),
            UniformType::M44 => String::from_str("mat4"),
            UniformType::ISampler1D => String::from_str("isampler1D"),
            UniformType::ISampler2D => String::from_str("isampler2D"),
            UniformType::ISampler3D => String::from_str("isampler3D"),
            UniformType::ISampler1DArray => String::from_str("isampler1DArray"),
            UniformType::ISampler2DArray => String::from_str("isampler2DArray"),
            UniformType::UISampler1D => String::from_str("usampler1D"),
            UniformType::UISampler2D => String::from_str("usampler2D"),
            UniformType::UISampler3D => String::from_str("usampler3D"),
            UniformType::UISampler1DArray => String::from_str("usampler1DArray"),
            UniformType::UISampler2DArray => String::from_str("usampler2DArray"),
            UniformType::Sampler1D => String::from_str("sampler1D"),
            UniformType::Sampler2D => String::from_str("sampler2D"),
            UniformType::Sampler3D => String::from_str("sampler3D"),
            UniformType::Sampler1DArray => String::from_str("sampler1DArray"),
            UniformType::Sampler2DArray => String::from_str("sampler2DArray"),
            UniformType::ICubemap => String::from_str("isamplerCube"),
            UniformType::UICubemap => String::from_str("usamplerCube"),
            UniformType::Cubemap => String::from_str("samplerCube"),
            UniformType::BufferBinding => String::from_str("buffer binding"),
        }
    }
}
/// A shader stage.
///
/// # Parametricity
///
/// - `B` is the backend type.
pub struct Stage<B> where B: ?Sized + Shader {
    repr: B::StageRepr,
}

impl<B> Stage<B> where B: ?Sized + Shader {
    /// The compiled backend representation of this stage.
    pub closed spec fn spec_repr(&self) -> B::StageRepr {
        self.repr
    }

    /// The type and the source the stage was compiled from.
    pub open spec fn spec_stage(&self) -> (StageType, Seq<char>) {
        B::spec_stage(&self.spec_repr())
    }

    /// What the backend answered when it was asked to compile a stage: the representation of
    /// `r`, or its error.
    pub open spec fn spec_answer(r: Result<Self, StageError>) -> Result<B::StageRepr, StageError> {
        match r {
            Ok(s) => Ok(s.spec_repr()),
            Err(e) => Err(e),
        }
    }

    /// Create a new stage of type `ty` by compiling `src`.
    ///
    /// # Parametricity
    ///
    /// - `C` is the graphics context. `C::Backend` must implement the [`Shader`] trait.
    /// - `R` is the source code to use in the stage. It must implement [`AsRef<str>`].
    ///
    /// [`AsRef<str>`]: AsRef
    ///
    /// The stage has the type `ty`; its source is the text that `src` holds, as its
    /// implementation of [`AsRef<str>`] shows it.
    pub fn new<C, R>(ctx: &mut C, ty: StageType, src: R) -> (r: Result<Self, StageError>) where
        C: GraphicsContext<Backend = B>,
        R: AsRef<str>,
        ensures
            final(ctx).spec_backend().spec_compiled().len() == old(
                ctx,
            ).spec_backend().spec_compiled().len() + 1,
            final(ctx).spec_backend().spec_compiled().drop_last() == old(
                ctx,
            ).spec_backend().spec_compiled(),
            final(ctx).spec_backend().spec_compiled().last().0 == ty,
            r matches Ok(s) ==> s.spec_stage() == final(ctx).spec_backend().spec_compiled().last(),
            final(ctx).spec_backend().spec_compile_answers() == old(
                ctx,
            ).spec_backend().spec_compile_answers().push(Self::spec_answer(r)),
    {
        Self::from_source(ctx, ty, borrow_str(&src))
    }

    /// Compile a stage of type `ty` out of the text `src`.
    pub(crate) fn from_source<C>(ctx: &mut C, ty: StageType, src: &str) -> (r: Result<
        Self,
        StageError,
    >) where C: GraphicsContext<Backend = B>
        ensures
            final(ctx).spec_backend().spec_compiled() == old(ctx).spec_backend().spec_compiled().push(
                (ty, src@),
            ),
            final(ctx).spec_backend().spec_compile_answers() == old(
                ctx,
            ).spec_backend().spec_compile_answers().push(Self::spec_answer(r)),
            r matches Ok(s) ==> s.spec_stage() == (ty, src@),
    {
        let repr = ctx.backend().new_stage(ty, src)?;
        Ok(Stage { repr })
    }

    /// A stage over a compiled backend representation.
    pub(crate) fn from_repr(repr: B::StageRepr) -> (r: Self)
        ensures
            r.spec_repr() == repr,
    {
        Stage { repr }
    }
}

/// A builder of [`Uniform`].
///
/// A [`UniformBuilder`] is an important type as it’s the only one that allows to safely create
/// [`Uniform`] values.
///
/// # Parametricity
///
/// - `B` is the backend type. It must implement the [`Shader`] trait.
pub struct UniformBuilder<'a, B> where B: ?Sized + Shader {
    repr: B::UniformBuilderRepr,
    warnings: Vec<UniformWarning>,
    _a: PhantomData<&'a mut ()>,
}

impl<'a, B> UniformBuilder<'a, B> where B: ?Sized + Shader {
    /// The warnings of the uniforms that were asked for and not found, in the order they were
    /// asked for.
    pub closed spec fn spec_warnings(&self) -> Seq<UniformWarning> {
        self.warnings@
    }

    /// The uniforms asked of the builder so far, in order: the name and the type asked for, and
    /// the answer: the index of the uniform found, or the warning.
    pub closed spec fn spec_asked(&self) -> Seq<(Seq<char>, UniformType, Result<i32, UniformWarning>)> {
        B::spec_asked(&self.repr)
    }

    /// The index of the uniforms that the builder hands out bound to nothing.
    pub closed spec fn spec_unbound_index(&self) -> i32 {
        B::spec_unbound_index(&self.repr)
    }

    /// A builder over a backend representation, with no warning yet.
    fn from_repr(repr: B::UniformBuilderRepr) -> (r: Self)
        ensures
            r.spec_warnings() == Seq::<UniformWarning>::empty(),
            r.spec_asked() == B::spec_asked(&repr),
            r.spec_unbound_index() == B::spec_unbound_index(&repr),
    {
        UniformBuilder { repr, warnings: Vec::new(), _a: PhantomData }
    }

    /// Ask the creation of a [`Uniform`], identified by its `name`: the backend is asked for the
    /// uniform, with the type of `T`, and its answer is returned.
    pub fn ask<T, N>(&mut self, name: N) -> (r: Result<Uniform<T>, UniformWarning>) where
        N: AsRef<str>,
        T: Uniformable<B>,
        ensures
            final(self).spec_warnings() == old(self).spec_warnings(),
            final(self).spec_unbound_index() == old(self).spec_unbound_index(),
            final(self).spec_asked().len() == old(self).spec_asked().len() + 1,
            final(self).spec_asked().drop_last() == old(self).spec_asked(),
            final(self).spec_asked().last().1 == T::spec_ty(),
            final(self).spec_asked().last().2 == spec_uniform_answer(r),
    {
        let ty = T::ty();
        B::ask_uniform(&mut self.repr, borrow_str(&name), ty)
    }

    /// Ask the creation of a [`Uniform`], identified by its `name`.
    ///
    /// If the name is not found, an _unbound_ [`Uniform`] is returned (i.e. a [`Uniform`]) that does
    /// nothing, and the warning is recorded.
    pub fn ask_or_unbound<T, N>(&mut self, name: N) -> (r: Uniform<T>) where
        N: AsRef<str>,
        T: Uniformable<B>,
        ensures
            final(self).spec_asked().len() == old(self).spec_asked().len() + 1,
            final(self).spec_asked().drop_last() == old(self).spec_asked(),
            final(self).spec_asked().last().1 == T::spec_ty(),
            match final(self).spec_asked().last().2 {
                Ok(index) => r.spec_index() == index
                    && final(self).spec_warnings() == old(self).spec_warnings(),
                Err(w) => r.spec_index() == old(self).spec_unbound_index()
                    && final(self).spec_warnings() == old(self).spec_warnings().push(w),
            },
    {
        let asked = self.ask(name);
        self.keep_or_unbound(asked)
    }

    /// What [`UniformBuilder::ask_or_unbound`] does with the answer to its request: a found
    /// uniform is handed back; a warning is recorded, and an unbound uniform handed back.
    pub fn keep_or_unbound<T>(&mut self, asked: Result<Uniform<T>, UniformWarning>) -> (r: Uniform<T>)
        ensures
            final(self).spec_asked() == old(self).spec_asked(),
            final(self).spec_unbound_index() == old(self).spec_unbound_index(),
            match asked {
                Ok(u) => r == u && final(self).spec_warnings() == old(self).spec_warnings(),
                Err(w) => r.spec_index() == old(self).spec_unbound_index()
                    && final(self).spec_warnings() == old(self).spec_warnings().push(w),
            },
    {
        match asked {
            Ok(uniform) => uniform,
            Err(err) => {
                self.warnings.push(err);
                B::unbound(&mut self.repr)
            },
        }
    }
}

/// [`Uniform`] interface.
///
/// When a type implements [`UniformInterface`], it means that it can be used as part of a shader
/// [`Program`] type. When a [`Program`] is in use in a graphics pipeline, its [`UniformInterface`]
/// is automatically provided to the user, giving them access to all the fields declared in. Then,
/// they can pass data to shaders before issuing draw commands.
///
/// # Parametricity
///
/// - `B` is the backend type. It must implement [`Shader`].
/// - `E` is the environment type. Set by default to `()`, it allows to pass a mutable
///   object at construction-site of the [`UniformInterface`]. It can be useful to generate
///   events or customize the way the [`Uniform`] are built by doing some lookups in hashmaps, etc.
pub trait UniformInterface<B, E = ()>: Sized where B: ?Sized + Shader {
    /// Create a [`UniformInterface`] by constructing [`Uniform`]s with a [`UniformBuilder`] and an
    /// optional environment object.
    ///
    /// This method is the only place where `Self` should be created. In theory, you could create it
    /// the way you want (since the type is provided by you) but not all types make sense. You will
    /// likely want to have some [`Uniform`] objects in your type, and the [`UniformBuilder`] that is
    /// provided as argument is the only way to create them.
    fn uniform_interface<'a>(builder: &mut UniformBuilder<'a, B>, env: &mut E) -> Result<
        Self,
        UniformWarning,
    >;
}

impl<B, E> UniformInterface<B, E> for () where B: ?Sized + Shader {
    fn uniform_interface<'a>(builder: &mut UniformBuilder<'a, B>, env: &mut E) -> (r: Result<
        Self,
        UniformWarning,
    >)
        ensures
            r is Ok,
            final(builder).spec_warnings() == old(builder).spec_warnings(),
            *final(builder) == *old(builder),
            *final(env) == *old(env),
    {
        Ok(())
    }
}

/// A built program with potential warnings.
///
/// The sole purpose of this type is to be destructured when a program is built.
///
/// # Parametricity
///
/// - `B` is the backend type.
/// - `Sem` is the [`Semantics`] type.
/// - `Out` is the render target type.
/// - `Uni` is the [`UniformInterface`] type.
pub struct BuiltProgram<B, Sem, Out, Uni> where B: ?Sized + Shader {
    /// Built program.
    pub program: Program<B, Sem, Out, Uni>,
    /// Potential warnings.
    pub warnings: Vec<ProgramError>,
}

impl<B, Sem, Out, Uni> BuiltProgram<B, Sem, Out, Uni> where B: ?Sized + Shader {
    /// Get the program and ignore the warnings.
    pub fn ignore_warnings(self) -> (r: Program<B, Sem, Out, Uni>)
        ensures
            r == self.program,
    {
        self.program
    }
}

/// A [`Program`] uniform adaptation that has failed.
///
/// # Parametricity
///
/// - `B` is the backend type.
/// - `Sem` is the [`Semantics`] type.
/// - `Out` is the render target type.
/// - `Uni` is the [`UniformInterface`] type.
pub struct AdaptationFailure<B, Sem, Out, Uni> where B: ?Sized + Shader {
    /// Program used before trying to adapt.
    pub program: Program<B, Sem, Out, Uni>,
    /// Program error that prevented to adapt.
    pub error: ProgramError,
}

impl<B, Sem, Out, Uni> AdaptationFailure<B, Sem, Out, Uni> where B: ?Sized + Shader {
    /// A failed adaptation of `program`, because of `error`.
    pub fn new(program: Program<B, Sem, Out, Uni>, error: ProgramError) -> (r: Self)
        ensures
            r.program == program,
            r.error == error,
    {
        AdaptationFailure { program, error }
    }

    /// Get the program and ignore the error.
    pub fn ignore_error(self) -> (r: Program<B, Sem, Out, Uni>)
        ensures
            r == self.program,
    {
        self.program
    }
}

/// Interact with the [`UniformInterface`] carried by a [`Program`] and/or perform dynamic
/// uniform lookup.
///
/// This type allows to set — [`ProgramInterface::set`] – uniforms for a [`Program`].
///
/// In the case where you don’t have a uniform interface or need to dynamically lookup uniforms,
/// you can use the [`ProgramInterface::query`] method.
///
/// # Parametricity
///
/// `B` is the backend type.
pub struct ProgramInterface<'a, B> where B: ?Sized + Shader {
    pub(crate) program: &'a mut B::ProgramRepr,
}

impl<'a, B> ProgramInterface<'a, B> where B: ?Sized + Shader {
    /// The program the interface sets uniforms of.
    pub closed spec fn spec_program(&self) -> &'a mut B::ProgramRepr {
        self.program
    }

    /// The program of the interface is its field.
    pub(crate) proof fn lemma_program(&self)
        ensures
            self.spec_program() == self.program,
    {
    }

    /// Set a value on a [`Uniform`]: the program holds `value` for it afterwards.
    pub fn set<T>(&mut self, uniform: &Uniform<T>, value: T) where T: Uniformable<B>
        ensures
            T::spec_uniform_value(&*final(self).spec_program(), uniform.spec_index()) == Some(
                value,
            ),
    {
        T::update(value, self.program, uniform);
    }

    /// Get back a [`UniformBuilder`] to dynamically access [`Uniform`] objects.
    pub fn query(&mut self) -> (r: Result<UniformBuilder<'a, B>, ProgramError>)
        ensures
            r matches Ok(b) ==> b.spec_warnings() == Seq::<UniformWarning>::empty(),
    {
        let repr = B::new_uniform_builder(self.program)?;
        Ok(UniformBuilder::from_repr(repr))
    }
}

/// The warnings of a program built out of vertex attribute warnings: each becomes a
/// [`ProgramError::Warning`], in order.
pub open spec fn spec_vertex_attrib_errors(ws: Seq<VertexAttribWarning>) -> Seq<ProgramError> {
    ws.map_values(|w: VertexAttribWarning| ProgramError::Warning(ProgramWarning::VertexAttrib(w)))
}

/// The warnings of a program built out of uniform warnings: each becomes a
/// [`ProgramError::Warning`], in order.
pub open spec fn spec_uniform_errors(ws: Seq<UniformWarning>) -> Seq<ProgramError> {
    ws.map_values(|w: UniformWarning| ProgramError::Warning(ProgramWarning::Uniform(w)))
}

/// The compiled stages handed to a link, as their representations.
pub open spec fn spec_stages_linked<B>(
    vertex: &Stage<B>,
    tess: Option<TessellationStages<Stage<B>>>,
    geometry: Option<&Stage<B>>,
    fragment: &Stage<B>,
) -> LinkedStages<B::StageRepr> where B: ?Sized + Shader {
    (
        vertex.spec_repr(),
        match tess {
            Some(t) => Some((t.control.spec_repr(), t.evaluation.spec_repr())),
            None => None,
        },
        match geometry {
            Some(g) => Some(g.spec_repr()),
            None => None,
        },
        fragment.spec_repr(),
    )
}

/// The types and sources that the stages of a program were compiled from.
pub open spec fn spec_linked_sources<B>(linked: LinkedStages<B::StageRepr>) -> LinkedStages<
    (StageType, Seq<char>),
> where B: ?Sized + Shader {
    (
        B::spec_stage(&linked.0),
        match linked.1 {
            Some((c, e)) => Some((B::spec_stage(&c), B::spec_stage(&e))),
            None => None,
        },
        match linked.2 {
            Some(g) => Some(B::spec_stage(&g)),
            None => None,
        },
        B::spec_stage(&linked.3),
    )
}

/// The stages that sources give, each with the type of its place: vertex, tessellation control
/// and evaluation, geometry and fragment.
pub open spec fn spec_sources_staged(
    vertex: Seq<char>,
    tess: Option<TessellationStages<str>>,
    geometry: Option<&str>,
    fragment: Seq<char>,
) -> LinkedStages<(StageType, Seq<char>)> {
    (
        (StageType::VertexShader, vertex),
        match tess {
            Some(t) => Some(
                (
                    (StageType::TessellationControlShader, t.control@),
                    (StageType::TessellationEvaluationShader, t.evaluation@),
                ),
            ),
            None => None,
        },
        match geometry {
            Some(g) => Some((StageType::GeometryShader, g@)),
            None => None,
        },
        (StageType::FragmentShader, fragment),
    )
}

/// The compilations of the vertex and tessellation sources, in order.
pub open spec fn spec_vertex_tess_order(vertex: Seq<char>, tess: Option<TessellationStages<str>>) -> Seq<
    (StageType, Seq<char>),
> {
    seq![(StageType::VertexShader, vertex)] + match tess {
        Some(t) => seq![
            (StageType::TessellationControlShader, t.control@),
            (StageType::TessellationEvaluationShader, t.evaluation@),
        ],
        None => Seq::empty(),
    }
}

/// The compilations that a program's sources ask for, in order: vertex, tessellation control and
/// evaluation, geometry, fragment.
pub open spec fn spec_compile_order(
    vertex: Seq<char>,
    tess: Option<TessellationStages<str>>,
    geometry: Option<&str>,
    fragment: Seq<char>,
) -> Seq<(StageType, Seq<char>)> {
    spec_vertex_tess_order(vertex, tess) + match geometry {
        Some(g) => seq![(StageType::GeometryShader, g@)],
        None => Seq::empty(),
    } + seq![(StageType::FragmentShader, fragment)]
}

/// Whether `compiled` are the compilations of a program's sources up to the first that failed, if
/// one did, with `failed` telling whether the result is the error of a stage: the vertex source
/// first, then the tessellation sources and the geometry source as the conversions of `tess` and
/// `geometry` give them, then the fragment source.
pub open spec fn spec_compiled_in_order<'b, T, G>(
    compiled: Seq<(StageType, Seq<char>)>,
    failed: bool,
    vertex: &'b str,
    tess: T,
    geometry: G,
    fragment: &'b str,
) -> bool where T: Into<Option<TessellationStages<'b, str>>>, G: Into<Option<&'b str>> {
    ||| compiled == seq![(StageType::VertexShader, vertex@)] && failed
    ||| exists|t: Option<TessellationStages<'b, str>>, k: int|
        #![trigger call_ensures(T::into, (tess,), t), spec_vertex_tess_order(vertex@, t).take(k)]
        call_ensures(T::into, (tess,), t) && 1 < k <= spec_vertex_tess_order(vertex@, t).len()
            && compiled == spec_vertex_tess_order(vertex@, t).take(k) && failed
    ||| exists|t: Option<TessellationStages<'b, str>>, g: Option<&'b str>, k: int|
        #![trigger call_ensures(T::into, (tess,), t), call_ensures(G::into, (geometry,), g), spec_compile_order(vertex@, t, g, fragment@).take(k)]
        call_ensures(T::into, (tess,), t) && call_ensures(G::into, (geometry,), g)
            && spec_vertex_tess_order(vertex@, t).len() < k <= spec_compile_order(
            vertex@,
            t,
            g,
            fragment@,
        ).len() && compiled == spec_compile_order(vertex@, t, g, fragment@).take(k) && (k
            < spec_compile_order(vertex@, t, g, fragment@).len() ==> failed)
}

/// Turn vertex attribute warnings into program warnings.
fn vertex_attrib_errors(ws: Vec<VertexAttribWarning>) -> (r: Vec<ProgramError>)
    ensures
        r@ == spec_vertex_attrib_errors(ws@),
{
    let ghost elts = ws@;
    let mut r: Vec<ProgramError> = Vec::new();
    for w in it: ws.into_iter()
        invariant
            it.seq() == elts,
            r@ == spec_vertex_attrib_errors(elts.take(it.index() as int)),
    {
        proof {
            assert(elts.take(it.index() + 1) =~= elts.take(it.index() as int).push(w));
        }
        r.push(ProgramError::Warning(ProgramWarning::VertexAttrib(w)));
        proof {
            assert(r@ =~= spec_vertex_attrib_errors(elts.take(it.index() + 1)));
        }
    }
    proof {
        assert(elts.take(elts.len() as int) =~= elts);
    }
    r
}

/// Turn uniform warnings into program warnings.
fn uniform_errors(ws: Vec<UniformWarning>) -> (r: Vec<ProgramError>)
    ensures
        r@ == spec_uniform_errors(ws@),
{
    let ghost elts = ws@;
    let mut r: Vec<ProgramError> = Vec::new();
    for w in it: ws.into_iter()
        invariant
            it.seq() == elts,
            r@ == spec_uniform_errors(elts.take(it.index() as int)),
    {
        proof {
            assert(elts.take(it.index() + 1) =~= elts.take(it.index() as int).push(w));
        }
        r.push(ProgramError::Warning(ProgramWarning::Uniform(w)));
        proof {
            assert(r@ =~= spec_uniform_errors(elts.take(it.index() + 1)));
        }
    }
    proof {
        assert(elts.take(elts.len() as int) =~= elts);
    }
    r
}

/// A [`Program`] builder.
///
/// This type allows to create shader programs without having to worry too much about the highly
/// generic API.
pub struct ProgramBuilder<'a, C, Sem, Out, Uni> {
    ctx: &'a mut C,
    _phantom: PhantomData<(Sem, Out, Uni)>,
}

impl<'a, C, Sem, Out, Uni> ProgramBuilder<'a, C, Sem, Out, Uni> {
    /// The graphics context the builder compiles and links with.
    pub closed spec fn spec_ctx(&self) -> &'a mut C {
        self.ctx
    }

    /// A builder over a graphics context.
    pub(crate) fn from_ctx(ctx: &'a mut C) -> (r: Self)
        ensures
            &*r.spec_ctx() == &*old(ctx),
    {
        ProgramBuilder { ctx, _phantom: PhantomData }
    }
}

impl<'a, C, Sem, Out, Uni> ProgramBuilder<'a, C, Sem, Out, Uni> where
    C: GraphicsContext,
    C::Backend: Shader,
    Sem: Semantics,
 {
    /// The compilations asked of the backend of the context so far.
    pub open spec fn spec_compiled(&self) -> Seq<(StageType, Seq<char>)> {
        (*self.spec_ctx()).spec_backend().spec_compiled()
    }

    /// The answers the backend of the context gave to the compilations asked of it so far.
    pub open spec fn spec_compile_answers(&self) -> Seq<
        Result<<C::Backend as Shader>::StageRepr, StageError>,
    > {
        (*self.spec_ctx()).spec_backend().spec_compile_answers()
    }

    /// Create a new [`ProgramBuilder`] from a [`GraphicsContext`].
    pub fn new(ctx: &'a mut C) -> (r: Self)
        ensures
            &*r.spec_ctx() == &*old(ctx),
    {
        ProgramBuilder::from_ctx(ctx)
    }

    /// Create a [`Program`] by linking [`Stage`]s and accessing a mutable environment variable.
    ///
    /// The warnings of the built program are those of the vertex attributes of `Sem` that the
    /// program does not use.
    ///
    /// # Parametricity
    ///
    /// - `T` is an [`Option`] containing a [`TessellationStages`] with [`Stage`] inside.
    /// - `G` is an [`Option`] containing a [`Stage`] inside (geometry shader).
    /// - `E` is the mutable environment variable.
    pub fn from_stages_env<'b, T, G, E>(
        &mut self,
        vertex: &'b Stage<C::Backend>,
        tess: T,
        geometry: G,
        fragment: &'b Stage<C::Backend>,
        env: &mut E,
    ) -> (r: Result<BuiltProgram<C::Backend, Sem, Out, Uni>, ProgramError>) where
        Uni: UniformInterface<C::Backend, E>,
        T: Into<Option<TessellationStages<'b, Stage<C::Backend>>>>,
        G: Into<Option<&'b Stage<C::Backend>>>,
        ensures
            final(self).spec_compiled() == old(self).spec_compiled(),
            final(self).spec_compile_answers() == old(self).spec_compile_answers(),
            r matches Ok(built) ==> exists|ws: Seq<VertexAttribWarning>|
                built.warnings@ == #[trigger] spec_vertex_attrib_errors(ws),
            r matches Ok(built) ==> exists|
                t: Option<TessellationStages<'b, Stage<C::Backend>>>,
                g: Option<&'b Stage<C::Backend>>,
            |
                #[trigger] call_ensures(T::into, (tess,), t) && #[trigger] call_ensures(
                    G::into,
                    (geometry,),
                    g,
                ) && built.program.spec_linked() == spec_stages_linked(vertex, t, g, fragment),
    {
        let tess: Option<TessellationStages<'b, Stage<C::Backend>>> = tess.into();
        let geometry: Option<&'b Stage<C::Backend>> = geometry.into();
        let tess_reprs = match tess {
            Some(stages) => Some(
                TessellationStages { control: &stages.control.repr, evaluation: &stages.evaluation.repr },
            ),
            None => None,
        };
        let geometry_repr = match geometry {
            Some(stage) => Some(&stage.repr),
            None => None,
        };
        let mut repr = self.ctx.backend().new_program(
            &vertex.repr,
            tess_reprs,
            geometry_repr,
            &fragment.repr,
        )?;
        let ghost linked = C::Backend::spec_linked(&repr);
        assert(linked == spec_stages_linked(vertex, tess, geometry, fragment));
        let attrib_warnings = C::Backend::apply_semantics::<Sem>(&mut repr)?;
        let warnings = vertex_attrib_errors(attrib_warnings);
        let builder_repr = C::Backend::new_uniform_builder(&mut repr)?;
        let mut uniform_builder: UniformBuilder<C::Backend> = UniformBuilder::from_repr(builder_repr);
        let uni = match Uni::uniform_interface(&mut uniform_builder, env) {
            Ok(uni) => uni,
            Err(w) => {
                return Err(ProgramError::Warning(ProgramWarning::Uniform(w)));
            },
        };
        let program = Program { repr, uni, _sem: PhantomData, _out: PhantomData };
        assert(program.spec_linked() == linked);
        Ok(BuiltProgram { program, warnings })
    }

    /// Create a [`Program`] by linking [`Stage`]s.
    ///
    /// # Parametricity
    ///
    /// - `T` is an [`Option`] containing a [`TessellationStages`] with [`Stage`] inside.
    /// - `G` is an [`Option`] containing a [`Stage`] inside (geometry shader).
    pub fn from_stages<'b, T, G>(
        &mut self,
        vertex: &'b Stage<C::Backend>,
        tess: T,
        geometry: G,
        fragment: &'b Stage<C::Backend>,
    ) -> (r: Result<BuiltProgram<C::Backend, Sem, Out, Uni>, ProgramError>) where
        Uni: UniformInterface<C::Backend>,
        T: Into<Option<TessellationStages<'b, Stage<C::Backend>>>>,
        G: Into<Option<&'b Stage<C::Backend>>>,
        ensures
            final(self).spec_compiled() == old(self).spec_compiled(),
            final(self).spec_compile_answers() == old(self).spec_compile_answers(),
            r matches Ok(built) ==> exists|ws: Seq<VertexAttribWarning>|
                built.warnings@ == #[trigger] spec_vertex_attrib_errors(ws),
            r matches Ok(built) ==> exists|
                t: Option<TessellationStages<'b, Stage<C::Backend>>>,
                g: Option<&'b Stage<C::Backend>>,
            |
                #[trigger] call_ensures(T::into, (tess,), t) && #[trigger] call_ensures(
                    G::into,
                    (geometry,),
                    g,
                ) && built.program.spec_linked() == spec_stages_linked(vertex, t, g, fragment),
    {
        Self::from_stages_env(self, vertex, tess, geometry, fragment, &mut ())
    }

    /// Create a [`Program`] by linking [`&str`]s and accessing a mutable environment variable.
    ///
    /// Each source is compiled into a stage first: the vertex shader, then the tessellation
    /// control and evaluation shaders, then the geometry shader, then the fragment shader.
    ///
    /// # Parametricity
    ///
    /// - `C` is the graphics context.
    /// - `T` is an [`Option`] containing a [`TessellationStages`] with [`&str`] inside.
    /// - `G` is an [`Option`] containing a [`Stage`] inside (geometry shader).
    /// - `E` is the mutable environment variable.
    ///
    /// [`&str`]: str
    pub fn from_strings_env<'b, T, G, E>(
        &mut self,
        vertex: &'b str,
        tess: T,
        geometry: G,
        fragment: &'b str,
        env: &mut E,
    ) -> (r: Result<BuiltProgram<C::Backend, Sem, Out, Uni>, ProgramError>) where
        Uni: UniformInterface<C::Backend, E>,
        T: Into<Option<TessellationStages<'b, str>>>,
        G: Into<Option<&'b str>>,
        ensures
            old(self).spec_compiled().is_prefix_of(final(self).spec_compiled()),
            spec_compiled_in_order(
                final(self).spec_compiled().skip(old(self).spec_compiled().len() as int),
                r matches Err(ProgramError::StageError(e))
                    && final(self).spec_compile_answers().last() matches Err(e2) && e2 == e,
                vertex,
                tess,
                geometry,
                fragment,
            ),
            r matches Ok(built) ==> exists|ws: Seq<VertexAttribWarning>|
                built.warnings@ == #[trigger] spec_vertex_attrib_errors(ws),
            r matches Ok(built) ==> exists|t: Option<TessellationStages<'b, str>>, g: Option<&'b str>|
                #[trigger] call_ensures(T::into, (tess,), t) && #[trigger] call_ensures(
                    G::into,
                    (geometry,),
                    g,
                ) && spec_linked_sources::<C::Backend>(built.program.spec_linked())
                    == spec_sources_staged(vertex@, t, g, fragment@)
                    && final(self).spec_compiled().skip(old(self).spec_compiled().len() as int)
                    == spec_compile_order(vertex@, t, g, fragment@),
    {
        let ghost log = self.spec_compiled();
        let ghost tess_arg = tess;
        let ghost geometry_arg = geometry;
        let vs_stage = match Stage::from_source(self.ctx, StageType::VertexShader, vertex) {
            Ok(stage) => stage,
            Err(e) => {
                proof {
                    assert(self.spec_compiled().skip(log.len() as int) =~= seq![
                        (StageType::VertexShader, vertex@),
                    ]);
                }
                return Err(ProgramError::StageError(e));
            },
        };
        let tess_sources: Option<TessellationStages<'b, str>> = tess.into();
        let ghost vt_order = spec_vertex_tess_order(vertex@, tess_sources);
        let tess_stages = match tess_sources {
            Some(stages) => {
                let control_stage = match Stage::from_source(
                    self.ctx,
                    StageType::TessellationControlShader,
                    stages.control,
                ) {
                    Ok(stage) => stage,
                    Err(e) => {
                        proof {
                            assert(self.spec_compiled().skip(log.len() as int) =~= vt_order.take(2));
                            assert(call_ensures(T::into, (tess_arg,), tess_sources));
                        }
                        return Err(ProgramError::StageError(e));
                    },
                };
                let evaluation_stage = match Stage::from_source(
                    self.ctx,
                    StageType::TessellationEvaluationShader,
                    stages.evaluation,
                ) {
                    Ok(stage) => stage,
                    Err(e) => {
                        proof {
                            assert(self.spec_compiled().skip(log.len() as int) =~= vt_order.take(3));
                            assert(call_ensures(T::into, (tess_arg,), tess_sources));
                        }
                        return Err(ProgramError::StageError(e));
                    },
                };
                Some((control_stage, evaluation_stage))
            },
            None => None,
        };
        proof {
            assert(self.spec_compiled().skip(log.len() as int) =~= vt_order);
        }
        let tess_refs = match &tess_stages {
            Some((control, evaluation)) => Some(TessellationStages { control, evaluation }),
            None => None,
        };
        let geometry_source: Option<&'b str> = geometry.into();
        let ghost order = spec_compile_order(vertex@, tess_sources, geometry_source, fragment@);
        let gs_stage = match geometry_source {
            Some(geometry) => match Stage::from_source(self.ctx, StageType::GeometryShader, geometry) {
                Ok(stage) => Some(stage),
                Err(e) => {
                    proof {
                        assert(self.spec_compiled().skip(log.len() as int) =~= order.take(
                            vt_order.len() + 1int,
                        ));
                        assert(call_ensures(T::into, (tess_arg,), tess_sources));
                        assert(call_ensures(G::into, (geometry_arg,), geometry_source));
                    }
                    return Err(ProgramError::StageError(e));
                },
            },
            None => None,
        };
        let gs_ref = match &gs_stage {
            Some(stage) => Some(stage),
            None => None,
        };
        let fs_stage = match Stage::from_source(self.ctx, StageType::FragmentShader, fragment) {
            Ok(stage) => stage,
            Err(e) => {
                proof {
                    assert(self.spec_compiled().skip(log.len() as int) =~= order.take(
                        order.len() as int,
                    ));
                    assert(call_ensures(T::into, (tess_arg,), tess_sources));
                    assert(call_ensures(G::into, (geometry_arg,), geometry_source));
                }
                return Err(ProgramError::StageError(e));
            },
        };
        let r = Self::from_stages_env(self, &vs_stage, tess_refs, gs_ref, &fs_stage, env);
        proof {
            assert(self.spec_compiled().skip(log.len() as int) =~= order.take(order.len() as int));
            assert(order.take(order.len() as int) =~= order);
            assert(call_ensures(T::into, (tess_arg,), tess_sources));
            assert(call_ensures(G::into, (geometry_arg,), geometry_source));
        }
        r
    }

    /// Create a [`Program`] by linking [`&str`]s.
    ///
    /// # Parametricity
    ///
    /// - `C` is the graphics context.
    /// - `T` is an [`Option`] containing a [`TessellationStages`] with [`&str`] inside.
    /// - `G` is an [`Option`] containing a [`Stage`] inside (geometry shader).
    ///
    /// [`&str`]: str
    pub fn from_strings<'b, T, G>(
        &mut self,
        vertex: &'b str,
        tess: T,
        geometry: G,
        fragment: &'b str,
    ) -> (r: Result<BuiltProgram<C::Backend, Sem, Out, Uni>, ProgramError>) where
        Uni: UniformInterface<C::Backend>,
        T: Into<Option<TessellationStages<'b, str>>>,
        G: Into<Option<&'b str>>,
        ensures
            old(self).spec_compiled().is_prefix_of(final(self).spec_compiled()),
            spec_compiled_in_order(
                final(self).spec_compiled().skip(old(self).spec_compiled().len() as int),
                r matches Err(ProgramError::StageError(e))
                    && final(self).spec_compile_answers().last() matches Err(e2) && e2 == e,
                vertex,
                tess,
                geometry,
                fragment,
            ),
            r matches Ok(built) ==> exists|ws: Seq<VertexAttribWarning>|
                built.warnings@ == #[trigger] spec_vertex_attrib_errors(ws),
            r matches Ok(built) ==> exists|t: Option<TessellationStages<'b, str>>, g: Option<&'b str>|
                #[trigger] call_ensures(T::into, (tess,), t) && #[trigger] call_ensures(
                    G::into,
                    (geometry,),
                    g,
                ) && spec_linked_sources::<C::Backend>(built.program.spec_linked())
                    == spec_sources_staged(vertex@, t, g, fragment@)
                    && final(self).spec_compiled().skip(old(self).spec_compiled().len() as int)
                    == spec_compile_order(vertex@, t, g, fragment@),
    {
        Self::from_strings_env(self, vertex, tess, geometry, fragment, &mut ())
    }
}

/// A shader program.
///
/// Shader programs are GPU binaries that execute when a draw command is issued.
///
/// # Parametricity
///
/// - `B` is the backend type.
/// - `Sem` is the [`Semantics`] type.
/// - `Out` is the render target type.
/// - `Uni` is the [`UniformInterface`] type.
pub struct Program<B, Sem, Out, Uni> where B: ?Sized + Shader {
    pub(crate) repr: B::ProgramRepr,
    pub(crate) uni: Uni,
    pub(crate) _sem: PhantomData<Sem>,
    pub(crate) _out: PhantomData<Out>,
}

impl<B, Sem, Out, Uni> Program<B, Sem, Out, Uni> where B: ?Sized + Shader {
    /// The linked program.
    pub closed spec fn spec_repr(&self) -> B::ProgramRepr {
        self.repr
    }

    /// The uniform interface.
    pub closed spec fn spec_uni(&self) -> Uni {
        self.uni
    }

    /// The stages the program was linked from.
    pub open spec fn spec_linked(&self) -> LinkedStages<B::StageRepr> {
        B::spec_linked(&self.spec_repr())
    }

    /// The linked program and the uniform interface are the fields of the program.
    pub(crate) proof fn lemma_fields(&self)
        ensures
            self.spec_repr() == self.repr,
            self.spec_uni() == self.uni,
    {
    }
}

impl<B, Sem, Out, Uni> Program<B, Sem, Out, Uni> where B: ?Sized + Shader, Sem: Semantics {
    /// Create a new [`UniformInterface`] but keep the [`Program`] around without rebuilding it.
    ///
    /// # Parametricity
    ///
    /// - `Q` is the new [`UniformInterface`].
    pub fn adapt<Q>(self) -> (r: Result<BuiltProgram<B, Sem, Out, Q>, AdaptationFailure<B, Sem, Out, Uni>>) where
        Q: UniformInterface<B>,
        ensures
            match r {
                Ok(built) => built.program.spec_repr() == self.spec_repr() && B::spec_lookup_error(
                    &self.spec_repr(),
                ) is None && exists|b: &mut UniformBuilder<B>, en: &mut ()|
                    #[trigger] call_ensures(
                        Q::uniform_interface,
                        (b, en),
                        Ok::<Q, UniformWarning>(built.program.spec_uni()),
                    ) && (*b).spec_warnings() == Seq::<UniformWarning>::empty() && (*b).spec_asked()
                        == Seq::<(Seq<char>, UniformType, Result<i32, UniformWarning>)>::empty()
                        && *en == () && built.warnings@ == spec_uniform_errors(
                        final(b).spec_warnings(),
                    ),
                Err(failure) => failure.program.spec_repr() == self.spec_repr()
                    && failure.program.spec_uni() == self.spec_uni() && match B::spec_lookup_error(
                    &self.spec_repr(),
                ) {
                    Some(e) => failure.error == e,
                    None => exists|w: UniformWarning, b: &mut UniformBuilder<B>, en: &mut ()|
                        #[trigger] call_ensures(Q::uniform_interface, (b, en), Err::<Q, UniformWarning>(w))
                            && failure.error == ProgramError::Warning(ProgramWarning::Uniform(w))
                            && (*b).spec_warnings() == Seq::<UniformWarning>::empty()
                            && (*b).spec_asked() == Seq::<
                            (Seq<char>, UniformType, Result<i32, UniformWarning>),
                        >::empty() && *en == (),
                },
            },
    {
        self.adapt_env(&mut ())
    }

    /// Create a new [`UniformInterface`] but keep the [`Program`] around without rebuilding it, by
    /// using a mutable environment variable.
    ///
    /// On success, the warnings are those of the uniforms that were asked for and not found. On
    /// failure, the program is given back as it was.
    ///
    /// # Parametricity
    ///
    /// - `Q` is the new [`UniformInterface`].
    /// - `E` is the mutable environment variable.
    pub fn adapt_env<Q, E>(self, env: &mut E) -> (r: Result<
        BuiltProgram<B, Sem, Out, Q>,
        AdaptationFailure<B, Sem, Out, Uni>,
    >) where Q: UniformInterface<B, E>
        ensures
            match r {
                Ok(built) => built.program.spec_repr() == self.spec_repr() && B::spec_lookup_error(
                    &self.spec_repr(),
                ) is None && exists|b: &mut UniformBuilder<B>, en: &mut E|
                    #[trigger] call_ensures(
                        Q::uniform_interface,
                        (b, en),
                        Ok::<Q, UniformWarning>(built.program.spec_uni()),
                    ) && (*b).spec_warnings() == Seq::<UniformWarning>::empty() && (*b).spec_asked()
                        == Seq::<(Seq<char>, UniformType, Result<i32, UniformWarning>)>::empty()
                        && *en == *old(env) && built.warnings@ == spec_uniform_errors(
                        final(b).spec_warnings(),
                    ),
                Err(failure) => failure.program.spec_repr() == self.spec_repr()
                    && failure.program.spec_uni() == self.spec_uni() && match B::spec_lookup_error(
                    &self.spec_repr(),
                ) {
                    Some(e) => failure.error == e,
                    None => exists|w: UniformWarning, b: &mut UniformBuilder<B>, en: &mut E|
                        #[trigger] call_ensures(Q::uniform_interface, (b, en), Err::<Q, UniformWarning>(w))
                            && failure.error == ProgramError::Warning(ProgramWarning::Uniform(w))
                            && (*b).spec_warnings() == Seq::<UniformWarning>::empty()
                            && (*b).spec_asked() == Seq::<
                            (Seq<char>, UniformType, Result<i32, UniformWarning>),
                        >::empty() && *en == *old(env),
                },
            },
    {
        let Program { repr, uni, _sem, _out } = self;
        let mut repr = repr;
        let mut uniform_builder: UniformBuilder<B> = match B::new_uniform_builder(&mut repr) {
            Ok(builder_repr) => UniformBuilder::from_repr(builder_repr),
            Err(e) => {
                let program = Program { repr, uni, _sem: PhantomData, _out: PhantomData };
                return Err(AdaptationFailure::new(program, e));
            },
        };
        let q = match Q::uniform_interface(&mut uniform_builder, env) {
            Ok(q) => q,
            Err(w) => {
                let program = Program { repr, uni, _sem: PhantomData, _out: PhantomData };
                return Err(
                    AdaptationFailure::new(program, ProgramError::Warning(ProgramWarning::Uniform(w))),
                );
            },
        };
        let warnings = uniform_errors(uniform_builder.warnings);
        let program = Program { repr, uni: q, _sem: PhantomData, _out: PhantomData };
        proof {
            assert(program.spec_uni() == q);
            assert(exists|b: &mut UniformBuilder<B>, en: &mut E|
                #[trigger] call_ensures(Q::uniform_interface, (b, en), Ok::<Q, UniformWarning>(q))
                    && (*b).spec_warnings() == Seq::<UniformWarning>::empty() && (*b).spec_asked()
                    == Seq::<(Seq<char>, UniformType, Result<i32, UniformWarning>)>::empty()
                    && *en == *old(env) && warnings@ == spec_uniform_errors(final(b).spec_warnings()));
        }
        Ok(BuiltProgram { program, warnings })
    }

    /// Re-create the [`UniformInterface`] but keep the [`Program`] around without rebuilding it.
    ///
    /// # Parametricity
    ///
    /// - `E` is the mutable environment variable.
    pub fn readapt_env<E>(self, env: &mut E) -> (r: Result<BuiltProgram<B, Sem, Out, Uni>, AdaptationFailure<B, Sem, Out, Uni>>) where
        Uni: UniformInterface<B, E>,
        ensures
            match r {
                Ok(built) => built.program.spec_repr() == self.spec_repr() && B::spec_lookup_error(
                    &self.spec_repr(),
                ) is None && exists|b: &mut UniformBuilder<B>, en: &mut E|
                    #[trigger] call_ensures(
                        Uni::uniform_interface,
                        (b, en),
                        Ok::<Uni, UniformWarning>(built.program.spec_uni()),
                    ) && (*b).spec_warnings() == Seq::<UniformWarning>::empty() && (*b).spec_asked()
                        == Seq::<(Seq<char>, UniformType, Result<i32, UniformWarning>)>::empty()
                        && *en == *old(env) && built.warnings@ == spec_uniform_errors(
                        final(b).spec_warnings(),
                    ),
                Err(failure) => failure.program.spec_repr() == self.spec_repr()
                    && failure.program.spec_uni() == self.spec_uni() && match B::spec_lookup_error(
                    &self.spec_repr(),
                ) {
                    Some(e) => failure.error == e,
                    None => exists|w: UniformWarning, b: &mut UniformBuilder<B>, en: &mut E|
                        #[trigger] call_ensures(Uni::uniform_interface, (b, en), Err::<Uni, UniformWarning>(w))
                            && failure.error == ProgramError::Warning(ProgramWarning::Uniform(w))
                            && (*b).spec_warnings() == Seq::<UniformWarning>::empty()
                            && (*b).spec_asked() == Seq::<
                            (Seq<char>, UniformType, Result<i32, UniformWarning>),
                        >::empty() && *en == *old(env),
                },
            },
    {
        self.adapt_env(env)
    }
}

} // verus!
