use std::cell::RefCell;
use std::rc::Rc;

use lib::backend::buffer::Buffer as BufferBackend;
use lib::backend::pipeline::{PipelineBase, PipelineBuffer};
use lib::backend::render_gate::RenderGate as RenderGateBackend;
use lib::backend::shader::{Shader, Uniformable};
use lib::backend::shading_gate::ShadingGate as ShadingGateBackend;
use lib::backend::tess::Tess as TessBackend;
use lib::backend::tess_gate::TessGate as TessGateBackend;
use lib::backend::texture::TextureBase;
use lib::buffer::{Buffer, BufferError};
use lib::context::GraphicsContext;
use lib::depth_test::DepthComparison;
use lib::pipeline::{PipelineError, PipelineGate, Render};
use lib::render_state::RenderState;
use lib::shader::{
    ProgramError, ProgramWarning, Stage, StageError, StageType, TessellationStages, Uniform,
    UniformBuilder, UniformInterface, UniformType, UniformWarning, VertexAttribWarning,
};
use lib::tess::{Mode, TessError, TessIndex, TessVertexData, View};
use lib::vertex::{Semantics, SemanticsDesc, Vertex, VertexDesc};

/// The body of a specification function: those are read by the verifier, never run.
fn spec_only<T>() -> T {
    panic!("specification functions are only read by the verifier")
}

/// A compiled stage: its type and its source.
struct Src {
    ty: StageType,
    text: String,
}

/// A linked program: the uniforms its stages declare (`uniform:NAME`), the vertex attributes its
/// vertex stage reads (`in:NAME`) and the values set to its uniforms.
struct Prog {
    uniforms: Vec<String>,
    inputs: Vec<String>,
    stages: Vec<StageType>,
    values: Rc<RefCell<Vec<(i32, i32)>>>,
}

/// A backend that records what it is asked to do.
struct Gpu {
    compiled: Vec<StageType>,
    applied: usize,
    render_states: Vec<Option<DepthComparison>>,
    renders: Vec<(usize, usize, usize)>,
    values: Rc<RefCell<Vec<(i32, i32)>>>,
}

struct Ctx {
    gpu: Gpu,
}

impl GraphicsContext for Ctx {
    type Backend = Gpu;

    fn spec_backend(&self) -> &Gpu {
        &self.gpu
    }

    fn backend(&mut self) -> &mut Gpu {
        &mut self.gpu
    }
}

fn words(text: &str, prefix: &str) -> Vec<String> {
    text.split_whitespace()
        .filter_map(|w| w.strip_prefix(prefix))
        .map(|w| w.to_owned())
        .collect()
}

impl Shader for Gpu {
    type StageRepr = Src;
    type ProgramRepr = Prog;
    type UniformBuilderRepr = Vec<String>;

    fn spec_compiled(&self) -> vstd::seq::Seq<(StageType, vstd::seq::Seq<char>)> {
        spec_only()
    }

    fn spec_compile_answers(&self) -> vstd::seq::Seq<Result<Src, StageError>> {
        spec_only()
    }

    fn spec_lookup_error(_program: &Prog) -> Option<ProgramError> {
        spec_only()
    }

    fn spec_asked(
        _uniform_builder: &Vec<String>,
    ) -> vstd::seq::Seq<(vstd::seq::Seq<char>, UniformType, Result<i32, UniformWarning>)> {
        spec_only()
    }

    fn spec_unbound_index(_uniform_builder: &Vec<String>) -> i32 {
        spec_only()
    }

    fn spec_stage(_stage: &Src) -> (StageType, vstd::seq::Seq<char>) {
        spec_only()
    }

    fn spec_linked(_program: &Prog) -> (Src, Option<(Src, Src)>, Option<Src>, Src) {
        spec_only()
    }

    fn new_stage(&mut self, ty: StageType, src: &str) -> Result<Src, StageError> {
        self.compiled.push(ty);
        if src.contains("syntax-error") {
            return Err(StageError::compilation_failed(ty, "syntax error"));
        }
        Ok(Src {
            ty,
            text: src.to_owned(),
        })
    }

    fn new_program(
        &mut self,
        vertex: &Src,
        tess: Option<TessellationStages<Src>>,
        geometry: Option<&Src>,
        fragment: &Src,
    ) -> Result<Prog, ProgramError> {
        let mut stages = vec![vertex];
        if let Some(t) = tess {
            stages.push(t.control);
            stages.push(t.evaluation);
        }
        if let Some(g) = geometry {
            stages.push(g);
        }
        stages.push(fragment);
        let uniforms = stages.iter().flat_map(|s| words(&s.text, "uniform:")).collect();
        Ok(Prog {
            uniforms,
            inputs: words(&vertex.text, "in:"),
            stages: stages.iter().map(|s| s.ty).collect(),
            values: self.values.clone(),
        })
    }

    fn apply_semantics<Sem>(program: &mut Prog) -> Result<Vec<VertexAttribWarning>, ProgramError>
    where
        Sem: Semantics,
    {
        Ok(Sem::semantics_set()
            .into_iter()
            .filter(|d| !program.inputs.contains(&d.name))
            .map(|d| VertexAttribWarning::inactive(d.name))
            .collect())
    }

    fn new_uniform_builder(program: &mut Prog) -> Result<Vec<String>, ProgramError> {
        if program.uniforms.iter().any(|u| u == "broken") {
            return Err(ProgramError::creation_failed("no uniform lookup"));
        }
        Ok(program.uniforms.clone())
    }

    fn ask_uniform<T>(
        uniform_builder: &mut Vec<String>,
        name: &str,
        ty: UniformType,
    ) -> Result<Uniform<T>, UniformWarning> {
        if ty != UniformType::Int {
            return Err(UniformWarning::type_mismatch(name, ty));
        }
        match uniform_builder.iter().position(|u| u == name) {
            Some(i) => Ok(Uniform::new(i as i32)),
            None => Err(UniformWarning::inactive(name)),
        }
    }

    fn unbound<T>(_uniform_builder: &mut Vec<String>) -> Uniform<T> {
        Uniform::new(-1)
    }
}

impl Uniformable<Gpu> for i32 {
    fn spec_ty() -> UniformType {
        spec_only()
    }

    fn spec_uniform_value(_program: &Prog, _index: i32) -> Option<i32> {
        spec_only()
    }

    fn ty() -> UniformType {
        UniformType::Int
    }

    fn update(self, program: &mut Prog, uniform: &Uniform<i32>) {
        program.values.borrow_mut().push((uniform.index(), self));
    }
}

impl Uniformable<Gpu> for bool {
    fn spec_ty() -> UniformType {
        spec_only()
    }

    fn spec_uniform_value(_program: &Prog, _index: i32) -> Option<bool> {
        spec_only()
    }

    fn ty() -> UniformType {
        UniformType::Bool
    }

    fn update(self, _program: &mut Prog, _uniform: &Uniform<bool>) {}
}

impl ShadingGateBackend for Gpu {
    fn spec_current_program(&self) -> Option<Prog> {
        spec_only()
    }

    fn apply_shader_program(&mut self, _shader_program: &Prog) {
        self.applied += 1;
    }
}

impl TextureBase for Gpu {
    type TextureRepr = ();

    fn spec_framebuffer_answers(&self) -> vstd::seq::Seq<Option<lib::framebuffer::FramebufferError>> {
        spec_only()
    }
}

impl PipelineBase for Gpu {
    type PipelineRepr = ();

    fn spec_pipelines(&self) -> vstd::seq::Seq<()> {
        spec_only()
    }

    fn new_pipeline(&mut self) -> Result<(), PipelineError> {
        Ok(())
    }
}

impl RenderGateBackend for Gpu {
    fn spec_render_state(&self) -> Option<RenderState> {
        spec_only()
    }

    fn enter_render_state(&mut self, rdr_st: &RenderState) {
        self.render_states.push(rdr_st.depth_test());
    }
}

impl<V, I, W, S> TessBackend<V, I, W, S> for Gpu
where
    V: TessVertexData<S>,
    I: TessIndex,
    W: TessVertexData<S>,
    S: ?Sized,
{
    type TessRepr = (usize, usize);

    fn spec_build_answers(&self) -> vstd::seq::Seq<Result<(usize, usize), TessError>> {
        spec_only()
    }

    fn spec_vertices_nb(_tess: &(usize, usize)) -> usize {
        spec_only()
    }

    fn spec_instances_nb(_tess: &(usize, usize)) -> usize {
        spec_only()
    }

    fn spec_built(
        _tess: &(usize, usize),
    ) -> (Option<V::Data>, Option<W::Data>, vstd::seq::Seq<I>, Option<I>, Mode) {
        spec_only()
    }

    fn build(
        &mut self,
        vert: (Option<V::Data>, usize),
        inst: (Option<W::Data>, usize),
        _index_data: Vec<I>,
        _restart_index: Option<I>,
        _mode: Mode,
    ) -> Result<(usize, usize), TessError> {
        Ok((vert.1, inst.1))
    }

    fn tess_vertices_nb(tess: &(usize, usize)) -> usize {
        tess.0
    }

    fn tess_instances_nb(tess: &(usize, usize)) -> usize {
        tess.1
    }

    fn render(_tess: &(usize, usize), _start: usize, _vert_nb: usize, _inst_nb: usize) -> Result<(), TessError> {
        Ok(())
    }
}

impl<V, I, W, S> TessGateBackend<V, I, W, S> for Gpu
where
    V: TessVertexData<S>,
    I: TessIndex,
    W: TessVertexData<S>,
    S: ?Sized,
{
    fn spec_renders(&self) -> vstd::seq::Seq<((usize, usize), usize, usize, usize)> {
        spec_only()
    }

    fn render(&mut self, _tess: &(usize, usize), start_index: usize, vert_nb: usize, inst_nb: usize) {
        self.renders.push((start_index, vert_nb, inst_nb));
    }
}

impl BufferBackend<u32> for Gpu {
    type BufferRepr = Vec<u32>;

    fn spec_contents(_buffer: &Vec<u32>) -> vstd::seq::Seq<u32> {
        spec_only()
    }

    fn new_buffer(&mut self, len: usize) -> Result<Vec<u32>, BufferError> {
        Ok(vec![0; len])
    }

    fn len(buffer: &Vec<u32>) -> usize {
        buffer.len()
    }

    fn from_vec(&mut self, vec: Vec<u32>) -> Result<Vec<u32>, BufferError> {
        Ok(vec)
    }

    fn repeat(&mut self, len: usize, value: u32) -> Result<Vec<u32>, BufferError> {
        Ok(vec![value; len])
    }

    fn at(buffer: &Vec<u32>, i: usize) -> Option<u32> {
        buffer.get(i).copied()
    }

    fn whole(buffer: &Vec<u32>) -> Vec<u32> {
        buffer.clone()
    }

    fn set(buffer: &mut Vec<u32>, i: usize, x: u32) -> Result<(), BufferError> {
        match buffer.get_mut(i) {
            Some(v) => {
                *v = x;
                Ok(())
            }
            None => Err(BufferError::overflow(i, buffer.len())),
        }
    }

    fn write_whole(buffer: &mut Vec<u32>, values: &[u32]) -> Result<(), BufferError> {
        if values.len() < buffer.len() {
            return Err(BufferError::too_few_values(values.len(), buffer.len()));
        }
        if values.len() > buffer.len() {
            return Err(BufferError::too_many_values(values.len(), buffer.len()));
        }
        buffer.copy_from_slice(values);
        Ok(())
    }

    fn clear(buffer: &mut Vec<u32>, x: u32) -> Result<(), BufferError> {
        buffer.iter_mut().for_each(|v| *v = x);
        Ok(())
    }
}

impl PipelineBuffer<u32> for Gpu {
    type BoundBufferRepr = u32;

    fn spec_buffer_binding(_bound: &u32) -> u32 {
        spec_only()
    }

    fn bind_buffer(_pipeline: &(), buffer: &Vec<u32>) -> Result<u32, PipelineError> {
        Ok(buffer.len() as u32 + 100)
    }

    fn buffer_binding(bound: &u32) -> u32 {
        *bound
    }
}

#[derive(Clone, Copy, Debug)]
enum Sem {
    Position,
    Color,
}

impl Semantics for Sem {
    fn index(&self) -> usize {
        *self as usize
    }

    fn name(&self) -> &'static str {
        match self {
            Sem::Position => "position",
            Sem::Color => "color",
        }
    }

    fn semantics_set() -> Vec<SemanticsDesc> {
        vec![
            SemanticsDesc {
                index: 0,
                name: "position".to_owned(),
            },
            SemanticsDesc {
                index: 1,
                name: "color".to_owned(),
            },
        ]
    }
}

#[derive(Clone, Copy, Debug)]
struct Point;

impl Vertex for Point {
    const ATTR_COUNT: usize = 1;

    fn vertex_desc() -> VertexDesc {
        Vec::new()
    }
}

/// An interface with a uniform that the shaders declare and one they do not.
struct Uni {
    time: Uniform<i32>,
    ghost: Uniform<i32>,
}

impl UniformInterface<Gpu> for Uni {
    fn uniform_interface<'a>(
        builder: &mut UniformBuilder<'a, Gpu>,
        _env: &mut (),
    ) -> Result<Self, UniformWarning> {
        Ok(Uni {
            time: builder.ask_or_unbound("time"),
            ghost: builder.ask_or_unbound("ghost"),
        })
    }
}

/// An interface that refuses to be built without its uniform.
struct Strict;

impl UniformInterface<Gpu> for Strict {
    fn uniform_interface<'a>(
        builder: &mut UniformBuilder<'a, Gpu>,
        _env: &mut (),
    ) -> Result<Self, UniformWarning> {
        builder.ask::<i32, _>("missing").map(|_| Strict)
    }
}

/// An interface that counts how many times it was built.
struct Counted;

impl UniformInterface<Gpu, usize> for Counted {
    fn uniform_interface<'a>(
        _builder: &mut UniformBuilder<'a, Gpu>,
        env: &mut usize,
    ) -> Result<Self, UniformWarning> {
        *env += 1;
        Ok(Counted)
    }
}

fn ctx() -> Ctx {
    Ctx {
        gpu: Gpu {
            compiled: Vec::new(),
            applied: 0,
            render_states: Vec::new(),
            renders: Vec::new(),
            values: Rc::new(RefCell::new(Vec::new())),
        },
    }
}

const VS: &str = "in:position uniform:time";
const FS: &str = "uniform:tint";

fn is_inactive_attrib(e: &ProgramError, name: &str) -> bool {
    matches!(e, ProgramError::Warning(ProgramWarning::VertexAttrib(VertexAttribWarning::Inactive(n))) if n == name)
}

fn is_inactive_uniform(e: &ProgramError, name: &str) -> bool {
    matches!(e, ProgramError::Warning(ProgramWarning::Uniform(UniformWarning::Inactive(n))) if n == name)
}

#[test]
fn programs_warn_of_unused_vertex_attributes() {
    let mut ctx = ctx();
    let built = ctx
        .new_shader_program::<Sem, (), ()>()
        .from_strings(VS, None, None, FS)
        .unwrap();
    assert_eq!(built.warnings.len(), 1);
    assert!(is_inactive_attrib(&built.warnings[0], "color"));
    let built = ctx
        .new_shader_program::<Sem, (), ()>()
        .from_strings("in:position in:color", None, None, FS)
        .unwrap();
    assert!(built.warnings.is_empty());
    built.ignore_warnings();
}

#[test]
fn stage_errors_fail_the_program() {
    let mut ctx = ctx();
    let r = ctx
        .new_shader_program::<Sem, (), ()>()
        .from_strings(VS, None, "syntax-error", FS);
    match r {
        Err(ProgramError::StageError(StageError::CompilationFailed(ty, reason))) => {
            assert_eq!(ty, StageType::GeometryShader);
            assert_eq!(reason, "syntax error");
        }
        _ => panic!("the geometry stage must fail"),
    }
    assert!(Stage::new(&mut ctx, StageType::VertexShader, "syntax-error").is_err());
    assert!(ctx.new_shader_stage(StageType::FragmentShader, "syntax-error").is_err());
}

#[test]
fn compilation_stops_at_the_first_failed_stage() {
    let mut ctx = ctx();
    let tess = TessellationStages {
        control: "syntax-error",
        evaluation: "uniform:depth",
    };
    let r = ctx
        .new_shader_program::<Sem, (), ()>()
        .from_strings(VS, tess, "uniform:time", FS);
    assert!(matches!(
        r,
        Err(ProgramError::StageError(StageError::CompilationFailed(
            StageType::TessellationControlShader,
            _
        )))
    ));
    assert_eq!(
        ctx.gpu.compiled,
        vec![StageType::VertexShader, StageType::TessellationControlShader]
    );
}

#[test]
fn sources_are_compiled_in_order() {
    let mut ctx = ctx();
    let tess = TessellationStages {
        control: "uniform:level",
        evaluation: "uniform:depth",
    };
    let built = ctx
        .new_shader_program::<Sem, (), ()>()
        .from_strings(VS, tess, "uniform:time", FS);
    assert!(built.is_ok());
    assert_eq!(
        ctx.gpu.compiled,
        vec![
            StageType::VertexShader,
            StageType::TessellationControlShader,
            StageType::TessellationEvaluationShader,
            StageType::GeometryShader,
            StageType::FragmentShader,
        ]
    );
}

#[test]
fn stages_are_linked_in_order() {
    let mut ctx = ctx();
    let tess = TessellationStages {
        control: "uniform:level",
        evaluation: "uniform:depth",
    };
    let built = ctx
        .new_shader_program::<Sem, (), Uni>()
        .from_strings("in:position in:color", tess, "uniform:time", FS)
        .unwrap();
    assert!(built.warnings.is_empty());
    let vs = Stage::new(&mut ctx, StageType::VertexShader, VS).unwrap();
    let fs = ctx.new_shader_stage(StageType::FragmentShader, FS).unwrap();
    let built = lib::shader::ProgramBuilder::<Ctx, Sem, (), ()>::new(&mut ctx)
        .from_stages(&vs, None, None, &fs)
        .unwrap();
    assert_eq!(built.warnings.len(), 1);
}

#[test]
fn uniforms_not_found_are_unbound() {
    let mut ctx = ctx();
    let program = ctx
        .new_shader_program::<Sem, (), ()>()
        .from_strings(VS, None, None, FS)
        .unwrap()
        .ignore_warnings();
    let built = program.adapt::<Uni>().ok().unwrap();
    assert_eq!(built.warnings.len(), 1);
    assert!(is_inactive_uniform(&built.warnings[0], "ghost"));
    let mut program = built.ignore_warnings();
    let mut gate = PipelineGate::new(&mut ctx);
    let render: Render<PipelineError> = gate.enter(|_pipeline, mut shd_gate| {
        shd_gate.shade(&mut program, |mut iface, uni, _rdr_gate| {
            assert_eq!(uni.time.index(), 0);
            assert_eq!(uni.ghost.index(), -1);
            iface.set(&uni.time, 42);
            let mut query = iface.query().unwrap();
            assert!(matches!(query.ask::<i32, _>("tint").map(|u| u.index()), Ok(1)));
            assert!(matches!(
                query.ask::<bool, _>("tint").map(|u| u.index()),
                Err(UniformWarning::TypeMismatch(_, UniformType::Bool))
            ));
            let unbound: Uniform<i32> = query.ask_or_unbound("nowhere");
            assert_eq!(unbound.index(), -1);
            Ok(())
        })
    });
    assert!(render.into_result().is_ok());
    assert_eq!(ctx.gpu.values.borrow().clone(), vec![(0, 42)]);
    assert_eq!(ctx.gpu.applied, 1);
}

#[test]
fn failed_adaptation_gives_the_program_back() {
    let mut ctx = ctx();
    let program = ctx
        .new_shader_program::<Sem, (), Uni>()
        .from_strings(VS, None, None, FS)
        .unwrap()
        .ignore_warnings();
    let failure = match program.adapt::<Strict>() {
        Err(failure) => failure,
        Ok(_) => panic!("the adaptation must fail"),
    };
    assert!(is_inactive_uniform(&failure.error, "missing"));
    let program = failure.ignore_error();
    let mut count = 0;
    let built = program.adapt_env::<Counted, usize>(&mut count).ok().unwrap();
    assert_eq!(count, 1);
    assert!(built.warnings.is_empty());
    let program = built.ignore_warnings();
    let built = program.readapt_env(&mut count).ok().unwrap();
    assert_eq!(count, 2);
    let broken = ctx
        .new_shader_program::<Sem, (), ()>()
        .from_strings(VS, None, None, "uniform:broken");
    assert!(matches!(broken, Err(ProgramError::CreationFailed(_))));
    let _ = built;
}

#[test]
fn views_render_their_window() {
    let mut ctx = ctx();
    let tess = ctx.new_tess().set_vertices(vec![Point; 10]).build().unwrap();
    let mut program = ctx
        .new_shader_program::<Sem, (), ()>()
        .from_strings(VS, None, None, FS)
        .unwrap()
        .ignore_warnings();
    let state = RenderState::default().set_depth_test(None);
    let mut gate = ctx.new_pipeline_gate();
    let render: Render<PipelineError> = gate.enter(|_pipeline, mut shd_gate| {
        shd_gate.shade(&mut program, |_iface, _uni, mut rdr_gate| {
            rdr_gate.render(&state, |mut tess_gate| {
                tess_gate.render(&tess)?;
                tess_gate.render(tess.view(2..5).unwrap())?;
                tess_gate.render(tess.view(..=3).unwrap())?;
                tess_gate.render(tess.view(7..).unwrap())?;
                tess_gate.render(tess.inst_view(1..=1, 4).unwrap())?;
                tess_gate.render(tess.view(..4).unwrap())?;
                tess_gate.render(tess.inst_view(.., 2).unwrap())
            })
        })
    });
    assert!(render.is_ok());
    assert_eq!(
        ctx.gpu.renders,
        vec![(0, 10, 0), (2, 3, 0), (0, 4, 0), (7, 3, 0), (1, 1, 4), (0, 4, 0), (0, 10, 2)]
    );
    assert_eq!(ctx.gpu.render_states, vec![None]);
    assert!(tess.view(..11).is_err());
    assert!(tess.view(9..=10).is_err());
}

/// The errors of the renders of the tests.
#[derive(Debug, PartialEq)]
enum Oops {
    Pipeline,
    Stop,
}

impl From<PipelineError> for Oops {
    fn from(_: PipelineError) -> Self {
        Oops::Pipeline
    }
}

#[test]
fn errors_of_the_closures_are_the_render() {
    let mut ctx = ctx();
    let mut program = ctx
        .new_shader_program::<Sem, (), ()>()
        .from_strings(VS, None, None, FS)
        .unwrap()
        .ignore_warnings();
    let mut gate = ctx.new_pipeline_gate();
    let render: Render<Oops> = gate.enter(|_pipeline, mut shd_gate| {
        shd_gate.shade(&mut program, |_iface, _uni, mut rdr_gate| {
            rdr_gate.render(&RenderState::default(), |_tess_gate| Err(Oops::Stop))
        })
    });
    assert_eq!(render.into_result(), Err(Oops::Stop));
    assert_ne!(Oops::Pipeline, Oops::Stop);
}

#[test]
fn bound_buffers_have_a_binding() {
    let mut ctx = ctx();
    let mut buffer: Buffer<Gpu, u32> = Buffer::from_vec(&mut ctx, vec![1, 2, 3]).unwrap();
    let mut gate = ctx.new_pipeline_gate();
    let mut binding = 0;
    let render: Render<PipelineError> = gate.enter(|pipeline, _shd_gate| {
        let bound = pipeline.bind_buffer(&mut buffer)?;
        binding = bound.binding().binding();
        Ok(())
    });
    assert!(render.into_result().is_ok());
    assert_eq!(binding, 103);
}
