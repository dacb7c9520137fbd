use lib::backend::tess::Tess as TessBackend;
use lib::context::GraphicsContext;
use lib::tess::{
    Deinterleaved, Interleaved, Mode, Tess, TessBuilder, TessError, TessIndex, TessIndexType,
    TessVertexData,
};
use lib::vertex::{Deinterleave, Vertex, VertexDesc};

/// The body of a specification function: those are read by the verifier, never run.
fn spec_only<T>() -> T {
    panic!("specification functions are only read by the verifier")
}

/// What a tessellation of the mock backend remembers of its building.
#[derive(Clone, Copy, Debug, PartialEq)]
struct Built {
    vert_nb: usize,
    inst_nb: usize,
    indices: usize,
    restart: bool,
    mode: Mode,
}

struct Memory {
    built: usize,
    last: Option<Built>,
}

struct Ctx {
    memory: Memory,
}

impl GraphicsContext for Ctx {
    type Backend = Memory;

    fn spec_backend(&self) -> &Memory {
        &self.memory
    }

    fn backend(&mut self) -> &mut Memory {
        &mut self.memory
    }
}

impl<V, I, W, S> TessBackend<V, I, W, S> for Memory
where
    V: TessVertexData<S>,
    I: TessIndex,
    W: TessVertexData<S>,
    S: ?Sized,
{
    type TessRepr = Built;

    fn spec_build_answers(&self) -> vstd::seq::Seq<Result<Built, TessError>> {
        spec_only()
    }

    fn spec_vertices_nb(_tess: &Built) -> usize {
        spec_only()
    }

    fn spec_instances_nb(_tess: &Built) -> usize {
        spec_only()
    }

    fn spec_built(_tess: &Built) -> (Option<V::Data>, Option<W::Data>, vstd::seq::Seq<I>, Option<I>, Mode) {
        spec_only()
    }

    fn build(
        &mut self,
        vert: (Option<V::Data>, usize),
        inst: (Option<W::Data>, usize),
        index_data: Vec<I>,
        restart_index: Option<I>,
        mode: Mode,
    ) -> Result<Built, TessError> {
        self.built += 1;
        let built = Built {
            vert_nb: vert.1,
            inst_nb: inst.1,
            indices: index_data.len(),
            restart: restart_index.is_some(),
            mode,
        };
        self.last = Some(built);
        Ok(built)
    }

    fn tess_vertices_nb(tess: &Built) -> usize {
        tess.vert_nb
    }

    fn tess_instances_nb(tess: &Built) -> usize {
        tess.inst_nb
    }

    fn render(_tess: &Built, _start_index: usize, _vert_nb: usize, _inst_nb: usize) -> Result<(), TessError> {
        Ok(())
    }
}

#[derive(Clone, Copy, Debug)]
struct Point(u8);

impl Vertex for Point {
    const ATTR_COUNT: usize = 1;

    fn vertex_desc() -> VertexDesc {
        Vec::new()
    }
}

/// A deinterleaved vertex of two attributes: a `u8` and a `u16`.
#[derive(Clone, Copy, Debug)]
struct Pair;

impl Vertex for Pair {
    const ATTR_COUNT: usize = 2;

    fn vertex_desc() -> VertexDesc {
        Vec::new()
    }
}

impl Deinterleave<u8> for Pair {
    const RANK: usize = 0;
}

impl Deinterleave<u16> for Pair {
    const RANK: usize = 1;
}

fn ctx() -> Ctx {
    Ctx {
        memory: Memory {
            built: 0,
            last: None,
        },
    }
}

fn points(n: u8) -> Vec<Point> {
    (0..n).map(Point).collect()
}

#[test]
fn attributeless_tess() {
    let mut ctx = ctx();
    let tess = ctx.new_tess().set_mode(Mode::Triangle).build().unwrap();
    assert_eq!(tess.vert_nb(), 0);
    assert_eq!(tess.inst_nb(), 0);
    let tess = TessBuilder::<Memory, ()>::new(&mut ctx)
        .set_vertex_nb(3)
        .build()
        .unwrap();
    assert_eq!(tess.vert_nb(), 3);
    assert_eq!(ctx.memory.built, 2);
}

#[test]
fn vertices_give_the_number_of_vertices() {
    let mut ctx = ctx();
    let tess = ctx.new_tess().set_vertices(points(4)).build().unwrap();
    assert_eq!(tess.vert_nb(), 4);
    let tess = ctx.new_tess().set_vertices(points(4)).set_vertex_nb(2).build().unwrap();
    assert_eq!(tess.vert_nb(), 2);
    let r = ctx.new_tess().set_vertices(points(4)).set_vertex_nb(5).build();
    assert!(matches!(r, Err(TessError::LengthIncoherency(5))));
}

#[test]
fn indices_give_the_number_of_vertices() {
    let mut ctx = ctx();
    let tess = ctx
        .new_tess()
        .set_vertices(points(4))
        .set_indices(vec![0u16, 1, 2, 2, 1, 3])
        .set_mode(Mode::Triangle)
        .build()
        .unwrap();
    assert_eq!(tess.vert_nb(), 6);
    let r = ctx
        .new_tess()
        .set_indices(vec![0u8, 1, 2])
        .set_vertex_nb(4)
        .build();
    assert!(matches!(r, Err(TessError::LengthIncoherency(4))));
    let tess = ctx
        .new_tess()
        .set_indices(vec![0u32, 1, 2])
        .set_vertex_nb(2)
        .set_primitive_restart_index(u32::MAX)
        .build()
        .unwrap();
    assert_eq!(tess.vert_nb(), 2);
}

#[test]
fn builder_records_mode_indices_and_restart() {
    let mut ctx = ctx();
    let tess = ctx
        .new_tess()
        .set_indices(vec![0u32, 1, 2, 3])
        .set_primitive_restart_index(7)
        .set_mode(Mode::TriangleStrip)
        .build()
        .unwrap();
    assert_eq!(tess.vert_nb(), 4);
    assert_eq!(
        ctx.memory.last,
        Some(Built {
            vert_nb: 4,
            inst_nb: 0,
            indices: 4,
            restart: true,
            mode: Mode::TriangleStrip
        })
    );
    let setting_indices_again = ctx
        .new_tess()
        .set_indices(vec![0u8, 1])
        .set_mode(Mode::Line)
        .build()
        .unwrap();
    assert_eq!(setting_indices_again.vert_nb(), 2);
    assert_eq!(ctx.memory.last.map(|b| (b.indices, b.restart, b.mode)), Some((2, false, Mode::Line)));
    ctx.new_tess().build().unwrap();
    assert_eq!(ctx.memory.last.map(|b| b.mode), Some(Mode::Point));
}

#[test]
fn instances() {
    let mut ctx = ctx();
    let r = ctx.new_tess().set_vertex_nb(3).set_instance_nb(2).build();
    match r {
        Err(TessError::AttributelessError(m)) => assert_eq!(m, "missing number of instances"),
        _ => panic!("instances without instance data must be refused"),
    }
    let tess = ctx
        .new_tess()
        .set_vertices(points(3))
        .set_instances(points(5))
        .build()
        .unwrap();
    assert_eq!(tess.inst_nb(), 5);
    let tess = ctx
        .new_tess()
        .set_vertices(points(3))
        .set_instances(points(5))
        .set_instance_nb(2)
        .build()
        .unwrap();
    assert_eq!(tess.inst_nb(), 2);
    let r = ctx
        .new_tess()
        .set_vertices(points(3))
        .set_instances(points(5))
        .set_instance_nb(6)
        .build();
    assert!(matches!(r, Err(TessError::LengthIncoherency(6))));
}

#[test]
fn interleaved_coherent_len() {
    let data = points(7);
    assert!(matches!(<Point as TessVertexData<Interleaved>>::coherent_len(&data), Ok(7)));
    assert!(matches!(<Point as TessVertexData<Interleaved>>::coherent_len(&Vec::new()), Ok(0)));
}

#[test]
fn deinterleaved_attribute_sets() {
    let mut ctx = ctx();
    let builder = ctx
        .new_deinterleaved_tess::<Pair, ()>()
        .set_attribute_bytes::<u8>(vec![1, 2, 3], 3)
        .set_attribute_bytes::<u16>(vec![0, 1, 0, 2], 2);
    assert!(matches!(builder.build(), Err(TessError::LengthIncoherency(3))));
    let tess = ctx
        .new_deinterleaved_tess::<Pair, ()>()
        .set_attribute_bytes::<u16>(vec![0, 1, 0, 2, 0, 3], 3)
        .set_attribute_bytes::<u8>(vec![1, 2, 3], 3)
        .build()
        .unwrap();
    assert_eq!(tess.vert_nb(), 3);
    let partial = ctx
        .new_deinterleaved_tess::<Pair, ()>()
        .set_attribute_bytes::<u8>(vec![1, 2], 2)
        .build();
    assert!(matches!(partial, Err(TessError::LengthIncoherency(2))));
    let empty: Tess<Memory, Pair, (), (), Deinterleaved> =
        ctx.new_deinterleaved_tess::<Pair, ()>().build().unwrap();
    assert_eq!(empty.vert_nb(), 0);
}

#[test]
fn index_types() {
    assert_eq!(<u8 as TessIndex>::index_type(), Some(TessIndexType::U8));
    assert_eq!(<u16 as TessIndex>::index_type(), Some(TessIndexType::U16));
    assert_eq!(<u32 as TessIndex>::index_type(), Some(TessIndexType::U32));
    assert_eq!(<() as TessIndex>::index_type(), None);
    assert_eq!(TessIndexType::U8.bytes(), 1);
    assert_eq!(TessIndexType::U16.bytes(), 2);
    assert_eq!(TessIndexType::U32.bytes(), 4);
    assert_eq!(7u8.try_into_u32(), Some(7));
    assert_eq!(70000u32.try_into_u32(), Some(70000));
}
