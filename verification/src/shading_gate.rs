//! Shading gates.
//!
//! A shading gate is a _pipeline node_ that allows to share shader [`Program`] for deeper nodes.
//!
//! [`Program`]: crate::shader::Program
use vstd::prelude::*;
use crate::backend::shading_gate::ShadingGate as ShadingGateBackend;
use crate::render_gate::RenderGate;
use crate::shader::{Program, ProgramInterface, UniformInterface};
use crate::vertex::Semantics;

verus! {

/// A shading gate.
///
/// This is obtained after entering a [`PipelineGate`].
///
/// # Parametricity
///
/// - `B` is the backend type.
///
/// [`PipelineGate`]: crate::pipeline::PipelineGate
pub struct ShadingGate<'a, B> where B: ?Sized {
    pub(crate) backend: &'a mut B,
}

impl<'a, B> ShadingGate<'a, B> where B: ?Sized {
    /// The backend the programs are applied on.
    pub closed spec fn spec_backend(&self) -> &'a mut B {
        self.backend
    }

    /// The backend is the one the struct holds.
    pub(crate) proof fn lemma_backend(&self)
        ensures
            self.spec_backend() == self.backend,
    {
    }
}

impl<'a, B> ShadingGate<'a, B> where B: ?Sized + ShadingGateBackend {
    /// Enter a [`ShadingGate`] by using a shader [`Program`].
    ///
    /// The argument closure is called once and given three arguments:
    ///
    /// - A [`ProgramInterface`], that allows to pass values (via [`ProgramInterface::set`]) to the
    ///   in-use shader [`Program`] and/or perform dynamic lookup of uniforms.
    /// - The uniform interface of the program.
    /// - A [`RenderGate`], allowing to create deeper nodes in the graphics pipeline.
    ///
    /// The program is applied on the backend before the closure is called: the interface sets the
    /// uniforms of that program, and the render gate renders with it. What the closure returns is
    /// returned.
    pub fn shade<'b, E, Sem, Out, Uni, F>(&'b mut self, program: &'b mut Program<B, Sem, Out, Uni>, f: F) -> (r: Result<
        (),
        E,
    >) where
        Sem: Semantics,
        Uni: UniformInterface<B>,
        F: FnOnce(ProgramInterface<'b, B>, &'b Uni, RenderGate<'b, B>) -> Result<(), E>,
        requires
            forall|interface: ProgramInterface<'b, B>, uni: &'b Uni, gate: RenderGate<'b, B>|
                call_requires(f, (interface, uni, gate)),
        ensures
            exists|interface: ProgramInterface<'b, B>, gate: RenderGate<'b, B>|
                #[trigger] call_ensures(f, (interface, &old(program).spec_uni(), gate), r) && {
                    &&& *interface.spec_program() == old(program).spec_repr()
                    &&& (*gate.spec_backend()).spec_current_program() == Some(
                        old(program).spec_repr(),
                    )
                },
    {
        self.backend.apply_shader_program(&program.repr);
        let ghost current = (*self.backend).spec_current_program();
        let render_gate = RenderGate { backend: &mut *self.backend };
        let ghost gate = render_gate;
        assert((*gate.backend).spec_current_program() == current);
        let program_interface = ProgramInterface { program: &mut program.repr };
        let ghost interface = program_interface;
        let uni = &program.uni;
        let r = f(program_interface, uni, render_gate);
        proof {
            old(program).lemma_fields();
            gate.lemma_backend();
            interface.lemma_program();
            assert(call_ensures(f, (interface, uni, gate), r));
        }
        r
    }
}

} // verus!
