//! Shader backend interface.
//!
//! This interface defines the low-level API shaders must implement to be usable.
use vstd::prelude::*;
use crate::shader::{
    ProgramError, StageError, StageType, TessellationStages, Uniform, UniformType, UniformWarning,
    VertexAttribWarning,
};
use crate::vertex::Semantics;

verus! {

/// The answer to the request of a uniform: the index of the uniform found, or the warning.
pub open spec fn spec_uniform_answer<T>(r: Result<Uniform<T>, UniformWarning>) -> Result<i32, UniformWarning> {
    match r {
        Ok(u) => Ok(u.spec_index()),
        Err(w) => Err(w),
    }
}

/// The stages of a program: vertex, tessellation (control and evaluation), geometry and fragment.
pub type LinkedStages<S> = (S, Option<(S, S)>, Option<S>, S);

/// The stages handed to a link, by value.
pub open spec fn spec_linked_stages<S>(
    vertex: &S,
    tess: Option<TessellationStages<S>>,
    geometry: Option<&S>,
    fragment: &S,
) -> LinkedStages<S> {
    (
        *vertex,
        match tess {
            Some(t) => Some((*t.control, *t.evaluation)),
            None => None,
        },
        match geometry {
            Some(g) => Some(*g),
            None => None,
        },
        *fragment,
    )
}

/// A type that can be sent to a shader program as a uniform value.
pub trait Uniformable<S> where S: ?Sized + Shader {
    /// The type of the uniform.
    spec fn spec_ty() -> UniformType;

    /// Type of the uniform.
    fn ty() -> (r: UniformType)
        ensures
            r == Self::spec_ty(),
    ;

    /// The value last set, in a program, for the uniform of index `index`, if one was set.
    spec fn spec_uniform_value(program: &S::ProgramRepr, index: i32) -> Option<Self> where
        Self: Sized;

    /// Update the uniform with a new value.
    fn update(self, program: &mut S::ProgramRepr, uniform: &Uniform<Self>) where Self: Sized
        ensures
            Self::spec_uniform_value(final(program), uniform.spec_index()) == Some(self),
    ;
}

/// Shader backend: compilation of stages, linking of programs and lookup of their uniforms.
pub trait Shader {
    /// The inner representation of a shader stage.
    type StageRepr;

    /// The inner representation of a shader program.
    type ProgramRepr;

    /// The inner representation of a uniform builder.
    type UniformBuilderRepr;

    /// The type and the source a stage was compiled from.
    spec fn spec_stage(stage: &Self::StageRepr) -> (StageType, Seq<char>);

    /// The stages a program was linked from: vertex, tessellation (control and evaluation),
    /// geometry and fragment.
    spec fn spec_linked(program: &Self::ProgramRepr) -> LinkedStages<Self::StageRepr>;

    /// The compilations asked of the backend so far, failed ones included: the type and the
    /// source of each, in order.
    spec fn spec_compiled(&self) -> Seq<(StageType, Seq<char>)>;

    /// The answers the backend gave to the compilations asked of it, in order.
    spec fn spec_compile_answers(&self) -> Seq<Result<Self::StageRepr, StageError>>;

    /// Compile a stage of type `ty` out of its source `src`.
    fn new_stage(&mut self, ty: StageType, src: &str) -> (r: Result<Self::StageRepr, StageError>)
        ensures
            final(self).spec_compiled() == old(self).spec_compiled().push((ty, src@)),
            final(self).spec_compile_answers() == old(self).spec_compile_answers().push(r),
            r matches Ok(s) ==> Self::spec_stage(&s) == (ty, src@),
    ;

    /// Link stages into a program.
    fn new_program(
        &mut self,
        vertex: &Self::StageRepr,
        tess: Option<TessellationStages<Self::StageRepr>>,
        geometry: Option<&Self::StageRepr>,
        fragment: &Self::StageRepr,
    ) -> (r: Result<Self::ProgramRepr, ProgramError>)
        ensures
            final(self).spec_compiled() == old(self).spec_compiled(),
            final(self).spec_compile_answers() == old(self).spec_compile_answers(),
            r matches Ok(p) ==> Self::spec_linked(&p) == spec_linked_stages(
                vertex,
                tess,
                geometry,
                fragment,
            ),
    ;

    /// Bind the vertex attributes of the semantics `Sem` in a program, reporting the attributes
    /// that the program does not use. The program keeps the stages it was linked from.
    fn apply_semantics<Sem>(program: &mut Self::ProgramRepr) -> (r: Result<
        Vec<VertexAttribWarning>,
        ProgramError,
    >) where Sem: Semantics
        ensures
            Self::spec_linked(final(program)) == Self::spec_linked(old(program)),
    ;

    /// Why the uniforms of a program cannot be looked up, if they cannot.
    spec fn spec_lookup_error(program: &Self::ProgramRepr) -> Option<ProgramError>;

    /// Get a uniform builder to look up the uniforms of a program.
    ///
    /// Looking uniforms up keeps the program as it is: it is not rebuilt.
    fn new_uniform_builder(program: &mut Self::ProgramRepr) -> (r: Result<
        Self::UniformBuilderRepr,
        ProgramError,
    >)
        ensures
            *final(program) == *old(program),
            match r {
                Ok(_) => Self::spec_lookup_error(old(program)) is None,
                Err(e) => Self::spec_lookup_error(old(program)) == Some(e),
            },
            r matches Ok(b) ==> Self::spec_asked(&b) == Seq::<
                (Seq<char>, UniformType, Result<i32, UniformWarning>),
            >::empty(),
    ;

    /// The uniforms asked of a uniform builder so far, in order: the name and the type asked
    /// for, and the answer: the index of the uniform found, or the warning.
    spec fn spec_asked(uniform_builder: &Self::UniformBuilderRepr) -> Seq<
        (Seq<char>, UniformType, Result<i32, UniformWarning>),
    >;

    /// The index of the uniforms that a uniform builder hands out bound to nothing.
    spec fn spec_unbound_index(uniform_builder: &Self::UniformBuilderRepr) -> i32;

    /// Look the uniform `name` up, expecting it to have the type `ty` (the one of `T`).
    fn ask_uniform<T>(
        uniform_builder: &mut Self::UniformBuilderRepr,
        name: &str,
        ty: UniformType,
    ) -> (r: Result<Uniform<T>, UniformWarning>)
        ensures
            Self::spec_asked(final(uniform_builder)) == Self::spec_asked(old(uniform_builder)).push(
                (name@, ty, spec_uniform_answer(r)),
            ),
            Self::spec_unbound_index(final(uniform_builder)) == Self::spec_unbound_index(
                old(uniform_builder),
            ),
    ;

    /// Get a uniform that is bound to nothing.
    fn unbound<T>(uniform_builder: &mut Self::UniformBuilderRepr) -> (r: Uniform<T>)
        ensures
            r.spec_index() == Self::spec_unbound_index(old(uniform_builder)),
            *final(uniform_builder) == *old(uniform_builder),
    ;
}

} // verus!
