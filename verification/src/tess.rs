//! Vertex sets.
//!
//! A tessellation is a type that represents the gathering of vertices and the way to connect /
//! link them. A tessellation has several intrinsic properties:
//!
//! - Its _primitive mode_ — [`Mode`]. That object tells the GPU how to connect the vertices.
//! - A default number of vertex to render. When passing the tessellation to the GPU for
//!   rendering, it’s possible to specify the number of vertices to render or just let the
//!   tessellation render a default number of vertices (typically, the whole tessellation).
//! - A default number of _instances_, which allows for geometry instancing.
//! - An indexed configuration, allowing to tell the GPU how to render the vertices by referring to
//!   them via indices.
//! - For indexed configuration, an optional _primitive restart index_ can be specified.
//!
//! Tessellations are built with a [`TessBuilder`], which works out how many vertices and
//! instances the tessellation holds from the data it was given, and rendered through views, which
//! pick a window of vertices and a number of instances.
use vstd::prelude::*;
use vstd::view::View as _;
use std::marker::PhantomData;
use vstd::std_specs::convert::FromSpecImpl;
use crate::backend::tess::{
    IndexSlice as IndexSliceBackend, InstanceSlice as InstanceSliceBackend, Tess as TessBackend,
    VertexSlice as VertexSliceBackend,
};
use crate::buffer::BufferError;
use crate::context::GraphicsContext;
use std::ops::{Deref, DerefMut, Range, RangeFrom, RangeFull, RangeInclusive, RangeTo, RangeToInclusive};
use crate::text::{decimal, push_decimal};
use crate::vertex::{
    spec_vertex_desc_debug_text, vertex_desc_debug_text, Deinterleave, Vertex, VertexBufferDesc,
    VertexDesc,
};

verus! {

/// Vertices can be connected via several modes.
///
/// Some modes allow for _primitive restart_. Primitive restart is a cool feature that allows to
/// _break_ the building of a primitive to _start over again_. For instance, when making a curve,
/// you can imagine gluing segments next to each other. If at some point, you want to start a new
/// curve, you have two choices:
///
///   - Either you stop your draw call and make another one.
///   - Or you just use the _primitive restart_ feature to ask to create another line from scratch.
///
/// _Primitive restart_ should be used as much as possible as it will decrease the number of GPU
/// commands you have to issue.
///
/// That feature is encoded with a special _vertex index_. You can setup the value of the _primitive
/// restart index_ with [`TessBuilder::set_primitive_restart_index`]. Whenever a vertex index is set
/// to the same value as the _primitive restart index_, the value is not interpreted as a vertex
/// index but just a marker / hint to start a new primitive.
#[derive(Clone, Copy, Debug, PartialEq, Eq, Structural)]
pub enum Mode {
    /// A single point.
    ///
    /// Points are left unconnected from each other and represent a _point cloud_. This is the typical
    /// primitive mode you want to do, for instance, particles rendering.
    Point,
    /// A line, defined by two points.
    ///
    /// Every pair of vertices are connected together to form a straight line.
    Line,
    /// A strip line, defined by at least two points and zero or many other ones.
    ///
    /// The first two vertices create a line, and every new vertex flowing in the graphics pipeline
    /// (starting from the third, then) well extend the initial line, making a curve composed of
    /// several segments.
    ///
    /// > This kind of primitive mode allows the usage of _primitive restart_.
    LineStrip,
    /// A triangle, defined by three points.
    Triangle,
    /// A triangle fan, defined by at least three points and zero or many other ones.
    ///
    /// The first vertex is at the center of the fan, then the second vertex creates the first edge
    /// of the first triangle. Every time you add a new vertex, a triangle is created by taking the
    /// first (center) vertex, the very previous vertex and the current vertex.
    ///
    /// > This kind of primitive mode allows the usage of _primitive restart_.
    TriangleFan,
    /// A triangle strip, defined by at least three points and zero or many other ones.
    ///
    /// The first two vertices define the first edge of the first triangle. Then, for each new
    /// vertex, a new triangle is created by taking the very previous vertex and the last to very
    /// previous vertex.
    ///
    /// > This kind of primitive mode allows the usage of _primitive restart_.
    TriangleStrip,
    /// A general purpose primitive with _n_ vertices, for use in tessellation shaders.
    /// For example, `Mode::Patch(3)` represents triangle patches, so every three vertices in the
    /// buffer form a patch.
    ///
    /// If you want to employ tessellation shaders, this is the only primitive mode you can use.
    Patch(usize),
}

impl Mode {
    /// The human-readable name of the mode.
    pub open spec fn spec_text(self) -> Seq<char> {
        match self {
            Mode::Point => "point"@,
            Mode::Line => "line"@,
            Mode::LineStrip => "line strip"@,
            Mode::Triangle => "triangle"@,
            Mode::TriangleStrip => "triangle strip"@,
            Mode::TriangleFan => "triangle fan"@,
            Mode::Patch(n) => "patch ("@ + decimal(n as nat) + ")"@,
        }
    }

    /// The human-readable name of the mode.
    pub fn to_string(&self) -> (r: String)
        ensures
            r@ == self.spec_text(),
    {
        match self {
            Mode::Point => String::from_str("point"),
            Mode::Line => String::from_str("line"),
            Mode::LineStrip => String::from_str("line strip"),
            Mode::Triangle => String::from_str("triangle"),
            Mode::TriangleStrip => String::from_str("triangle strip"),
            Mode::TriangleFan => String::from_str("triangle fan"),
            Mode::Patch(n) => {
                let mut s = String::from_str("patch (");
                push_decimal(&mut s, *n);
                s.append(")");
                s
            },
        }
    }
}

/// Error that can occur while trying to map GPU tessellations to host code.
#[non_exhaustive]
#[derive(Debug, PartialEq, Eq)]
pub enum TessMapError {
    /// The CPU mapping failed due to buffer errors.
    BufferMapError(BufferError),
    /// Vertex target type is not the same as the one stored in the buffer.
    VertexTypeMismatch(VertexDesc, VertexDesc),
    /// Index target type is not the same as the one stored in the buffer.
    IndexTypeMismatch(TessIndexType, TessIndexType),
    /// The CPU mapping failed because you cannot map an attributeless tessellation since it doesn’t
    /// have any vertex attribute.
    ForbiddenAttributelessMapping,
    /// The CPU mapping failed because currently, mapping deinterleaved buffers is not supported via
    /// a single slice.
    ForbiddenDeinterleavedMapping,
}

impl TessMapError {
    /// The CPU mapping failed due to buffer errors.
    pub fn buffer_map_error(e: BufferError) -> (r: Self)
        ensures
            r == TessMapError::BufferMapError(e),
    {
        TessMapError::BufferMapError(e)
    }

    /// Vertex target type is not the same as the one stored in the buffer.
    pub fn vertex_type_mismatch(a: VertexDesc, b: VertexDesc) -> (r: Self)
        ensures
            r == TessMapError::VertexTypeMismatch(a, b),
    {
        TessMapError::VertexTypeMismatch(a, b)
    }

    /// Index target type is not the same as the one stored in the buffer.
    pub fn index_type_mismatch(a: TessIndexType, b: TessIndexType) -> (r: Self)
        ensures
            r == TessMapError::IndexTypeMismatch(a, b),
    {
        TessMapError::IndexTypeMismatch(a, b)
    }

    /// The CPU mapping failed because you cannot map an attributeless tessellation since it doesn’t
    /// have any vertex attribute.
    pub fn forbidden_attributeless_mapping() -> (r: Self)
        ensures
            r == TessMapError::ForbiddenAttributelessMapping,
    {
        TessMapError::ForbiddenAttributelessMapping
    }

    /// The CPU mapping failed because currently, mapping deinterleaved buffers is not supported via
    /// a single slice.
    pub fn forbidden_deinterleaved_mapping() -> (r: Self)
        ensures
            r == TessMapError::ForbiddenDeinterleavedMapping,
    {
        TessMapError::ForbiddenDeinterleavedMapping
    }

    /// The human-readable message of the error.
    pub open spec fn spec_text(self) -> Seq<char> {
        match self {
            TessMapError::BufferMapError(e) => "cannot map tessellation buffer: "@ + e.spec_text(),
            TessMapError::VertexTypeMismatch(a, b) =>
                "cannot map tessellation: vertex type mismatch between "@
                + spec_vertex_desc_debug_text(a@) + " and "@ + spec_vertex_desc_debug_text(b@),
            TessMapError::IndexTypeMismatch(a, b) =>
                "cannot map tessellation: index type mismatch between "@ + a.spec_debug_text()
                + " and "@ + b.spec_debug_text(),
            TessMapError::ForbiddenAttributelessMapping => "cannot map an attributeless buffer"@,
            TessMapError::ForbiddenDeinterleavedMapping =>
                "cannot map a deinterleaved buffer as interleaved"@,
        }
    }

    /// The human-readable message of the error.
    pub fn to_string(&self) -> (r: String)
        ensures
            r@ == self.spec_text(),
    {
        match self {
            TessMapError::BufferMapError(e) => {
                let mut s = String::from_str("cannot map tessellation buffer: ");
                let t = e.to_string();
                s.append(t.as_str());
                s
            },
            TessMapError::VertexTypeMismatch(a, b) => {
                let mut s = String::from_str(
                    "cannot map tessellation: vertex type mismatch between ",
                );
                let ta = vertex_desc_debug_text(a);
                s.append(ta.as_str());
                s.append(" and ");
                let tb = vertex_desc_debug_text(b);
                s.append(tb.as_str());
                s
            },
            TessMapError::IndexTypeMismatch(a, b) => {
                let mut s = String::from_str(
                    "cannot map tessellation: index type mismatch between ",
                );
                let ta = a.debug_text();
                s.append(ta.as_str());
                s.append(" and ");
                let tb = b.debug_text();
                s.append(tb.as_str());
                s
            },
            TessMapError::ForbiddenAttributelessMapping => String::from_str(
                "cannot map an attributeless buffer",
            ),
            TessMapError::ForbiddenDeinterleavedMapping => String::from_str(
                "cannot map a deinterleaved buffer as interleaved",
            ),
        }
    }
}

impl From<BufferError> for TessMapError {
    fn from(e: BufferError) -> (r: Self) {
        TessMapError::buffer_map_error(e)
    }
}

impl FromSpecImpl<BufferError> for TessMapError {
    open spec fn obeys_from_spec() -> bool {
        true
    }

    open spec fn from_spec(e: BufferError) -> Self {
        TessMapError::BufferMapError(e)
    }
}

/// Possible errors that might occur when dealing with tessellations.
#[non_exhaustive]
#[derive(Debug)]
pub enum TessError {
    /// Cannot create a tessellation.
    CannotCreate(String),
    /// Error related to attributeless tessellation and/or render.
    AttributelessError(String),
    /// Length incoherency in vertex, index or instance buffers.
    LengthIncoherency(usize),
    /// Internal error ocurring with a buffer.
    InternalBufferError(BufferError),
    /// Forbidden primitive mode by hardware.
    ForbiddenPrimitiveMode(Mode),
}

impl TessError {
    /// Cannot create a tessellation.
    pub fn cannot_create<R>(e: R) -> (r: Self) where R: Into<String>
        ensures
            r matches TessError::CannotCreate(s) && call_ensures(R::into, (e,), s),
    {
        TessError::CannotCreate(e.into())
    }

    /// Error related to attributeless tessellation and/or render.
    pub fn attributeless_error<R>(e: R) -> (r: Self) where R: Into<String>
        ensures
            r matches TessError::AttributelessError(s) && call_ensures(R::into, (e,), s),
    {
        TessError::AttributelessError(e.into())
    }

    /// Length incoherency in vertex, index or instance buffers.
    pub fn length_incoherency(len: usize) -> (r: Self)
        ensures
            r == TessError::LengthIncoherency(len),
    {
        TessError::LengthIncoherency(len)
    }

    /// Internal error ocurring with a buffer.
    pub fn internal_buffer_error(e: BufferError) -> (r: Self)
        ensures
            r == TessError::InternalBufferError(e),
    {
        TessError::InternalBufferError(e)
    }

    /// Forbidden primitive mode by hardware.
    pub fn forbidden_primitive_mode(mode: Mode) -> (r: Self)
        ensures
            r == TessError::ForbiddenPrimitiveMode(mode),
    {
        TessError::ForbiddenPrimitiveMode(mode)
    }

    /// The human-readable message of the error.
    pub open spec fn spec_text(self) -> Seq<char> {
        match self {
            TessError::CannotCreate(s) => "Creation error: "@ + s@,
            TessError::AttributelessError(s) => "Attributeless error: "@ + s@,
            TessError::LengthIncoherency(s) => "Incoherent size for internal buffers: "@ + decimal(
                s as nat,
            ),
            TessError::InternalBufferError(e) => "internal buffer error: "@ + e.spec_text(),
            TessError::ForbiddenPrimitiveMode(e) => "forbidden primitive mode: "@ + e.spec_text(),
        }
    }

    /// The human-readable message of the error.
    pub fn to_string(&self) -> (r: String)
        ensures
            r@ == self.spec_text(),
    {
        match self {
            TessError::CannotCreate(e) => {
                let mut s = String::from_str("Creation error: ");
                s.append(e.as_str());
                s
            },
            TessError::AttributelessError(e) => {
                let mut s = String::from_str("Attributeless error: ");
                s.append(e.as_str());
                s
            },
            TessError::LengthIncoherency(n) => {
                let mut s = String::from_str("Incoherent size for internal buffers: ");
                push_decimal(&mut s, *n);
                s
            },
            TessError::InternalBufferError(e) => {
                let mut s = String::from_str("internal buffer error: ");
                let t = e.to_string();
                s.append(t.as_str());
                s
            },
            TessError::ForbiddenPrimitiveMode(m) => {
                let mut s = String::from_str("forbidden primitive mode: ");
                let t = m.to_string();
                s.append(t.as_str());
                s
            },
        }
    }
}

impl From<BufferError> for TessError {
    fn from(e: BufferError) -> (r: Self) {
        TessError::internal_buffer_error(e)
    }
}

impl FromSpecImpl<BufferError> for TessError {
    open spec fn obeys_from_spec() -> bool {
        true
    }

    open spec fn from_spec(e: BufferError) -> Self {
        TessError::InternalBufferError(e)
    }
}

/// Possible tessellation index types.
#[derive(Clone, Copy, Debug, PartialEq, Eq, Structural)]
pub enum TessIndexType {
    /// 8-bit unsigned integer.
    U8,
    /// 16-bit unsigned integer.
    U16,
    /// 32-bit unsigned integer.
    U32,
}

impl TessIndexType {
    /// Number of bytes of an index of that type.
    pub open spec fn spec_bytes(self) -> nat {
        match self {
            TessIndexType::U8 => 1,
            TessIndexType::U16 => 2,
            TessIndexType::U32 => 4,
        }
    }

    /// Get the number of bytes that can hold an index of that type.
    pub fn bytes(self) -> (r: usize)
        ensures
            r == self.spec_bytes(),
    {
        match self {
            TessIndexType::U8 => 1,
            TessIndexType::U16 => 2,
            TessIndexType::U32 => 4,
        }
    }

    /// The derived `Debug` rendering.
    pub open spec fn spec_debug_text(self) -> Seq<char> {
        match self {
            TessIndexType::U8 => "U8"@,
            TessIndexType::U16 => "U16"@,
            TessIndexType::U32 => "U32"@,
        }
    }

    /// The `Debug` rendering.
    pub fn debug_text(&self) -> (r: String)
        ensures
            r@ == self.spec_debug_text(),
    {
        match self {
            TessIndexType::U8 => String::from_str("U8"),
            TessIndexType::U16 => String::from_str("U16"),
            TessIndexType::U32 => String::from_str("U32"),
        }
    }
}

/// Class of tessellation indices.
///
/// Values which types implement this trait are allowed to be used to index tessellation in *indexed
/// draw commands*.
///
/// You shouldn’t have to worry too much about that trait. Have a look at the current implementors
/// for an exhaustive list of types you can use.
pub trait TessIndex {
    /// Type of the underlying index.
    ///
    /// You are limited in which types you can use as indexes. Feel free to have a look at the
    /// documentation of the [`TessIndexType`] trait for further information.
    ///
    /// `None` means that you disable indexing.
    spec fn spec_index_type() -> Option<TessIndexType>;

    /// Type of the underlying index; `None` means that indexing is disabled.
    fn index_type() -> (r: Option<TessIndexType>)
        ensures
            r == Self::spec_index_type(),
    ;

    /// Get and convert the index to [`u32`], if possible.
    fn try_into_u32(self) -> Option<u32>;
}

impl TessIndex for () {
    open spec fn spec_index_type() -> Option<TessIndexType> {
        None
    }

    fn index_type() -> (r: Option<TessIndexType>) {
        None
    }

    fn try_into_u32(self) -> (r: Option<u32>)
        ensures
            r == None::<u32>,
    {
        None
    }
}

impl TessIndex for u8 {
    open spec fn spec_index_type() -> Option<TessIndexType> {
        Some(TessIndexType::U8)
    }

    fn index_type() -> (r: Option<TessIndexType>) {
        Some(TessIndexType::U8)
    }

    fn try_into_u32(self) -> (r: Option<u32>)
        ensures
            r == Some(self as u32),
    {
        Some(self.into())
    }
}

impl TessIndex for u16 {
    open spec fn spec_index_type() -> Option<TessIndexType> {
        Some(TessIndexType::U16)
    }

    fn index_type() -> (r: Option<TessIndexType>) {
        Some(TessIndexType::U16)
    }

    fn try_into_u32(self) -> (r: Option<u32>)
        ensures
            r == Some(self as u32),
    {
        Some(self.into())
    }
}

impl TessIndex for u32 {
    open spec fn spec_index_type() -> Option<TessIndexType> {
        Some(TessIndexType::U32)
    }

    fn index_type() -> (r: Option<TessIndexType>) {
        Some(TessIndexType::U32)
    }

    fn try_into_u32(self) -> (r: Option<u32>)
        ensures
            r == Some(self),
    {
        Some(self)
    }
}

/// Interleaved memory marker.
///
/// It is only used as a type parameter; no value of it can be made outside the crate.
#[derive(Clone, Copy, Debug, PartialEq, Eq, Hash)]
pub struct Interleaved {
    _marker: (),
}

/// Deinterleaved memory marker.
///
/// It is only used as a type parameter; no value of it can be made outside the crate.
#[derive(Clone, Copy, Debug, PartialEq, Eq, Hash)]
pub struct Deinterleaved {
    _marker: (),
}

/// Vertex input data of a [`TessBuilder`].
pub trait TessVertexData<S>: Vertex where S: ?Sized {
    /// Vertex storage type.
    type Data;

    /// The coherent length of the vertices, or the incoherency that prevents one.
    spec fn spec_coherent_len(data: &Self::Data) -> Result<usize, TessError>;

    /// Coherent length of the vertices.
    ///
    /// Vertices length can be incohent for some implementations of [`TessVertexData::Data`],
    /// especially with deinterleaved memory.
    fn coherent_len(data: &Self::Data) -> (r: Result<usize, TessError>)
        ensures
            r == Self::spec_coherent_len(data),
    ;
}

impl<V> TessVertexData<Interleaved> for V where V: Vertex {
    type Data = Vec<V>;

    open spec fn spec_coherent_len(data: &Self::Data) -> Result<usize, TessError> {
        Ok(data@.len() as usize)
    }

    fn coherent_len(data: &Self::Data) -> (r: Result<usize, TessError>) {
        Ok(data.len())
    }
}

/// The coherent length of deinterleaved attribute sets: `0` when there is none, else the length
/// of the first set if every set has that length, else an incoherency carrying that length.
pub open spec fn spec_deinterleaved_coherent_len(data: Seq<DeinterleavedData>) -> Result<
    usize,
    TessError,
> {
    if data.len() == 0 {
        Ok(0)
    } else if forall|i: int| 0 <= i < data.len() ==> (#[trigger] data[i]).spec_len() == data[0].spec_len() {
        Ok(data[0].spec_len())
    } else {
        Err(TessError::LengthIncoherency(data[0].spec_len()))
    }
}

impl<V> TessVertexData<Deinterleaved> for V where V: Vertex {
    type Data = Vec<DeinterleavedData>;

    open spec fn spec_coherent_len(data: &Self::Data) -> Result<usize, TessError> {
        spec_deinterleaved_coherent_len(data@)
    }

    fn coherent_len(data: &Self::Data) -> (r: Result<usize, TessError>) {
        if data.is_empty() {
            Ok(0)
        } else {
            let len = data[0].len;
            let n = data.len();
            let mut i: usize = 1;
            while i < n
                invariant
                    n == data@.len(),
                    1 <= i <= n,
                    len == data@[0].spec_len(),
                    forall|j: int| 0 <= j < i ==> (#[trigger] data@[j]).spec_len() == len,
                decreases n - i,
            {
                if data[i].len != len {
                    return Err(TessError::length_incoherency(len));
                }
                i = i + 1;
            }
            Ok(len)
        }
    }
}

/// Deinterleaved data.
#[derive(Clone, Debug)]
pub struct DeinterleavedData {
    raw: Vec<u8>,
    len: usize,
}

impl DeinterleavedData {
    /// The raw bytes of the attribute set.
    pub closed spec fn spec_raw(self) -> Seq<u8> {
        self.raw@
    }

    /// The number of attributes in the set.
    pub closed spec fn spec_len(self) -> usize {
        self.len
    }

    /// An empty attribute set.
    fn new() -> (r: Self)
        ensures
            r.spec_raw() == Seq::<u8>::empty(),
            r.spec_len() == 0,
    {
        DeinterleavedData { raw: Vec::new(), len: 0 }
    }

    /// Turn the [`DeinterleavedData`] into its raw representation.
    pub fn into_vec(self) -> (r: Vec<u8>)
        ensures
            r@ == self.spec_raw(),
    {
        self.raw
    }
}

/// Possible errors that might occur when creating a tessellation view.
#[non_exhaustive]
#[derive(Debug, PartialEq, Eq, Structural)]
pub enum TessViewError {
    /// The view has incorrect size.
    ///
    /// data.
    IncorrectViewWindow {
        /// Capacity of data in the tessellation.
        capacity: usize,
        /// Requested start.
        start: usize,
        /// Requested number.
        nb: usize,
    },
}

impl TessViewError {
    /// The human-readable message of the error.
    pub open spec fn spec_text(self) -> Seq<char> {
        match self {
            TessViewError::IncorrectViewWindow { capacity, start, nb } =>
                "TessView incorrect window error: requested slice size "@ + decimal(nb as nat)
                + " starting at "@ + decimal(start as nat) + ", but capacity is only "@ + decimal(
                capacity as nat,
            ),
        }
    }

    /// The human-readable message of the error.
    pub fn to_string(&self) -> (r: String)
        ensures
            r@ == self.spec_text(),
    {
        match self {
            TessViewError::IncorrectViewWindow { capacity, start, nb } => {
                let mut s = String::from_str(
                    "TessView incorrect window error: requested slice size ",
                );
                push_decimal(&mut s, *nb);
                s.append(" starting at ");
                push_decimal(&mut s, *start);
                s.append(", but capacity is only ");
                push_decimal(&mut s, *capacity);
                s
            },
        }
    }
}


/// The number of vertices that the data of a builder provides: the number of indices if there
/// are some, else the coherent length of the vertices if there are some (or the incoherency that
/// prevents one). `None` when there is neither, i.e. for attributeless tessellations.
pub open spec fn spec_vertices_provided<V, S>(index_len: nat, vertex_data: Option<V::Data>) -> Option<
    Result<usize, TessError>,
> where V: TessVertexData<S>, S: ?Sized {
    if index_len != 0 {
        Some(Ok(index_len as usize))
    } else {
        match vertex_data {
            Some(data) => Some(V::spec_coherent_len(&data)),
            None => None,
        }
    }
}

/// The number of vertices to render when `vert_nb` were asked for (`0` meaning "as many as
/// provided") and `provided` are provided: asking for more than provided is a length incoherency.
pub open spec fn spec_vertex_len(vert_nb: usize, provided: Option<Result<usize, TessError>>) -> Result<
    usize,
    TessError,
> {
    match provided {
        None => Ok(vert_nb),
        Some(Err(e)) => Err(e),
        Some(Ok(n)) => if vert_nb == 0 {
            Ok(n)
        } else if vert_nb <= n {
            Ok(vert_nb)
        } else {
            Err(TessError::LengthIncoherency(vert_nb))
        },
    }
}

/// A tessellation never renders more vertices (or instances) than its data provides: when the
/// data provides `n`, the number rendered is `n` if none was asked for, the number asked for if it
/// is at most `n`, and asking for more is refused.
pub proof fn law_vertex_len_within_provided(vert_nb: usize, n: usize)
    ensures
        spec_vertex_len(vert_nb, Some(Ok(n))) matches Ok(m) ==> m <= n,
        vert_nb == 0 ==> spec_vertex_len(vert_nb, Some(Ok(n))) == Ok::<usize, TessError>(n),
        0 < vert_nb <= n ==> spec_vertex_len(vert_nb, Some(Ok(n))) == Ok::<usize, TessError>(
            vert_nb,
        ),
        vert_nb > n ==> spec_vertex_len(vert_nb, Some(Ok(n))) == Err::<usize, TessError>(
            TessError::LengthIncoherency(vert_nb),
        ),
{
}

/// [`Tess`] builder object.
///
/// This type allows to create [`Tess`] via a _builder pattern_. You have several flavors of
/// possible _vertex storage_ situations, as well as _data encoding_, described below.
///
/// # Vertex storage
///
/// ## Interleaved
///
/// You can pass around interleaved vertices and indices. Those are encoded in `Vec<T>`. You
/// typically want to use this when you already have the vertices and/or indices allocated somewhere,
/// as the interface will use the input vector as a source of truth for lengths.
///
/// ## Deinterleaved
///
/// This is the same as interleaved data in terms of interface, but the `T` type is interpreted
/// a bit differently. Here, the encoding is `(Vec<Field0>, Vec<Field1>, …)`, where `Field0`,
/// `Field1` etc. are all the ordered fieds in `T`.
///
/// That representation allows field-based operation later on [`Tess`], while it would be
/// impossible with the interleaved version (you would need to get all the fields at once, since
/// you would work on`T` directly and each of its fields).
///
/// # Data encoding
///
/// - Vectors: you can pass vectors as input data for both vertices and indices. Those will be
///   interpreted differently based on the vertex storage you chose for vertices, and the normal
///   way for indices.
/// - Disabled: disabling means that no data will be passed to the GPU. You can disable independently
///   vertex data and/or index data.
///
/// # Parametricity
///
/// - `B` is the backend type
/// - `V` is the vertex type.
/// - `S` is the storage type.
pub struct TessBuilder<'a, B, V, I = (), W = (), S = Interleaved> where
    B: ?Sized,
    V: TessVertexData<S>,
    W: TessVertexData<S>,
    S: ?Sized,
 {
    backend: &'a mut B,
    vertex_data: Option<V::Data>,
    index_data: Vec<I>,
    instance_data: Option<W::Data>,
    mode: Mode,
    vert_nb: usize,
    inst_nb: usize,
    restart_index: Option<I>,
    _phantom: PhantomData<S>,
}

impl<'a, B, V, I, W, S> TessBuilder<'a, B, V, I, W, S> where
    B: ?Sized,
    V: TessVertexData<S>,
    I: TessIndex,
    W: TessVertexData<S>,
    S: ?Sized,
 {
    /// The vertex data.
    pub closed spec fn spec_vertex_data(&self) -> Option<V::Data> {
        self.vertex_data
    }

    /// The indices.
    pub closed spec fn spec_index_data(&self) -> Seq<I> {
        self.index_data@
    }

    /// The instance data.
    pub closed spec fn spec_instance_data(&self) -> Option<W::Data> {
        self.instance_data
    }

    /// The primitive mode.
    pub closed spec fn spec_mode(&self) -> Mode {
        self.mode
    }

    /// The number of vertices asked for; `0` means as many as the data provides.
    pub closed spec fn spec_vert_nb(&self) -> usize {
        self.vert_nb
    }

    /// The number of instances asked for; `0` means as many as the instance data provides.
    pub closed spec fn spec_inst_nb(&self) -> usize {
        self.inst_nb
    }

    /// The primitive restart index.
    pub closed spec fn spec_restart_index(&self) -> Option<I> {
        self.restart_index
    }

    /// The number of vertices the built tessellation renders, or why it cannot be built.
    pub open spec fn spec_guessed_vertex_len(&self) -> Result<usize, TessError> {
        spec_vertex_len(
            self.spec_vert_nb(),
            spec_vertices_provided::<V, S>(self.spec_index_data().len(), self.spec_vertex_data()),
        )
    }

    /// Whether instances are asked for while no instance data is given.
    pub open spec fn spec_instances_missing(&self) -> bool {
        self.spec_inst_nb() != 0 && self.spec_instance_data() is None
    }

    /// The number of instances the built tessellation renders, or why it cannot be built, when
    /// instances are not missing.
    pub open spec fn spec_guessed_instance_len(&self) -> Result<usize, TessError> {
        match self.spec_instance_data() {
            None => Ok(0),
            Some(data) => spec_vertex_len(self.spec_inst_nb(), Some(W::spec_coherent_len(&data))),
        }
    }

    /// Set the [`Mode`] to connect vertices.
    ///
    /// Calling that function twice replace the previously set value.
    pub fn set_mode(self, mode: Mode) -> (r: Self)
        ensures
            r.spec_mode() == mode,
            r.spec_vertex_data() == self.spec_vertex_data(),
            r.spec_index_data() == self.spec_index_data(),
            r.spec_instance_data() == self.spec_instance_data(),
            r.spec_vert_nb() == self.spec_vert_nb(),
            r.spec_inst_nb() == self.spec_inst_nb(),
            r.spec_restart_index() == self.spec_restart_index(),
    {
        TessBuilder { mode, ..self }
    }

    /// Set the default number of vertices to render.
    ///
    /// Calling that function twice replace the previously set value.
    pub fn set_vertex_nb(self, vert_nb: usize) -> (r: Self)
        ensures
            r.spec_vert_nb() == vert_nb,
            r.spec_mode() == self.spec_mode(),
            r.spec_vertex_data() == self.spec_vertex_data(),
            r.spec_index_data() == self.spec_index_data(),
            r.spec_instance_data() == self.spec_instance_data(),
            r.spec_inst_nb() == self.spec_inst_nb(),
            r.spec_restart_index() == self.spec_restart_index(),
    {
        TessBuilder { vert_nb, ..self }
    }

    /// Set the default number of instances to render.
    ///
    /// Calling that function twice replace the previously set value.
    pub fn set_instance_nb(self, inst_nb: usize) -> (r: Self)
        ensures
            r.spec_inst_nb() == inst_nb,
            r.spec_mode() == self.spec_mode(),
            r.spec_vertex_data() == self.spec_vertex_data(),
            r.spec_index_data() == self.spec_index_data(),
            r.spec_instance_data() == self.spec_instance_data(),
            r.spec_vert_nb() == self.spec_vert_nb(),
            r.spec_restart_index() == self.spec_restart_index(),
    {
        TessBuilder { inst_nb, ..self }
    }

    /// Set the primitive restart index.
    ///
    /// Calling that function twice replace the previously set value.
    pub fn set_primitive_restart_index(self, restart_index: I) -> (r: Self)
        ensures
            r.spec_restart_index() == Some(restart_index),
            r.spec_mode() == self.spec_mode(),
            r.spec_vertex_data() == self.spec_vertex_data(),
            r.spec_index_data() == self.spec_index_data(),
            r.spec_instance_data() == self.spec_instance_data(),
            r.spec_vert_nb() == self.spec_vert_nb(),
            r.spec_inst_nb() == self.spec_inst_nb(),
    {
        TessBuilder { restart_index: Some(restart_index), ..self }
    }

    /// Create a new default [`TessBuilder`].
    ///
    /// It has no data, no indices, no restart index, asks for no particular number of vertices or
    /// instances and connects vertices as [`Mode::Point`].
    pub fn new<C>(ctx: &'a mut C) -> (r: Self) where C: GraphicsContext<Backend = B>
        ensures
            r.spec_is_default(),
    {
        Self::from_backend(ctx.backend())
    }

    /// Whether the builder has no data, no indices, no restart index, asks for no particular
    /// number of vertices or instances and connects vertices as [`Mode::Point`].
    pub open spec fn spec_is_default(&self) -> bool {
        &&& self.spec_vertex_data() is None
        &&& self.spec_index_data() == Seq::<I>::empty()
        &&& self.spec_instance_data() is None
        &&& self.spec_mode() == Mode::Point
        &&& self.spec_vert_nb() == 0
        &&& self.spec_inst_nb() == 0
        &&& self.spec_restart_index() is None
    }

    /// The backend the tessellation is built with.
    pub closed spec fn spec_backend(&self) -> &'a mut B {
        self.backend
    }

    /// Whether the numbers of vertices and of instances can be guessed, so that the backend is
    /// asked to build the tessellation.
    pub open spec fn spec_builds(&self) -> bool {
        &&& self.spec_guessed_vertex_len() is Ok
        &&& !self.spec_instances_missing()
        &&& self.spec_guessed_instance_len() is Ok
    }

    /// A default builder over a backend.
    pub(crate) fn from_backend(backend: &'a mut B) -> (r: Self)
        ensures
            r.spec_is_default(),
    {
        TessBuilder {
            backend,
            vertex_data: None,
            index_data: Vec::new(),
            instance_data: None,
            mode: Mode::Point,
            vert_nb: 0,
            inst_nb: 0,
            restart_index: None,
            _phantom: PhantomData,
        }
    }
}

impl<'a, B, V, W, S> TessBuilder<'a, B, V, (), W, S> where
    B: ?Sized,
    V: TessVertexData<S>,
    W: TessVertexData<S>,
    S: ?Sized,
 {
    /// Add indices to be bundled in the [`Tess`].
    ///
    /// Every time you call that function, the set of indices is replaced by the one you provided.
    /// The type of expected indices is ruled by the `II` type variable you chose.
    pub fn set_indices<II, X>(self, indices: X) -> (r: TessBuilder<'a, B, V, II, W, S>) where
        X: Into<Vec<II>>,
        II: TessIndex,
        ensures
            exists|v: Vec<II>| #[trigger] call_ensures(X::into, (indices,), v) && r.spec_index_data() == v@,
            r.spec_restart_index() is None,
            r.spec_mode() == self.spec_mode(),
            r.spec_vertex_data() == self.spec_vertex_data(),
            r.spec_instance_data() == self.spec_instance_data(),
            r.spec_vert_nb() == self.spec_vert_nb(),
            r.spec_inst_nb() == self.spec_inst_nb(),
    {
        let index_data: Vec<II> = indices.into();
        proof {
            assert(call_ensures(X::into, (indices,), index_data) && index_data@ == index_data@);
        }
        TessBuilder {
            backend: self.backend,
            vertex_data: self.vertex_data,
            index_data,
            instance_data: self.instance_data,
            mode: self.mode,
            vert_nb: self.vert_nb,
            inst_nb: self.inst_nb,
            restart_index: None,
            _phantom: PhantomData,
        }
    }
}

impl<'a, B, I, W> TessBuilder<'a, B, (), I, W, Interleaved> where
    B: ?Sized,
    I: TessIndex,
    W: TessVertexData<Interleaved>,
 {
    /// Add vertices to be bundled in the [`Tess`].
    ///
    /// Every time you call that function, the set of vertices is replaced by the one you provided.
    pub fn set_vertices<VV, X>(self, vertices: X) -> (r: TessBuilder<'a, B, VV, I, W, Interleaved>) where
        X: Into<Vec<VV>>,
        VV: TessVertexData<Interleaved, Data = Vec<VV>>,
        ensures
            exists|v: Vec<VV>| call_ensures(X::into, (vertices,), v) && #[trigger] r.spec_vertex_data() == Some(v),
            r.spec_index_data() == self.spec_index_data(),
            r.spec_restart_index() == self.spec_restart_index(),
            r.spec_mode() == self.spec_mode(),
            r.spec_instance_data() == self.spec_instance_data(),
            r.spec_vert_nb() == self.spec_vert_nb(),
            r.spec_inst_nb() == self.spec_inst_nb(),
    {
        TessBuilder {
            backend: self.backend,
            vertex_data: Some(vertices.into()),
            index_data: self.index_data,
            instance_data: self.instance_data,
            mode: self.mode,
            vert_nb: self.vert_nb,
            inst_nb: self.inst_nb,
            restart_index: self.restart_index,
            _phantom: PhantomData,
        }
    }
}

impl<'a, B, I, V> TessBuilder<'a, B, V, I, (), Interleaved> where
    B: ?Sized,
    I: TessIndex,
    V: TessVertexData<Interleaved>,
 {
    /// Add instances to be bundled in the [`Tess`].
    ///
    /// Every time you call that function, the set of instances is replaced by the one you provided.
    pub fn set_instances<WW, X>(self, instances: X) -> (r: TessBuilder<'a, B, V, I, WW, Interleaved>) where
        X: Into<Vec<WW>>,
        WW: TessVertexData<Interleaved, Data = Vec<WW>>,
        ensures
            exists|v: Vec<WW>| call_ensures(X::into, (instances,), v) && #[trigger] r.spec_instance_data() == Some(v),
            r.spec_vertex_data() == self.spec_vertex_data(),
            r.spec_index_data() == self.spec_index_data(),
            r.spec_restart_index() == self.spec_restart_index(),
            r.spec_mode() == self.spec_mode(),
            r.spec_vert_nb() == self.spec_vert_nb(),
            r.spec_inst_nb() == self.spec_inst_nb(),
    {
        TessBuilder {
            backend: self.backend,
            vertex_data: self.vertex_data,
            index_data: self.index_data,
            instance_data: Some(instances.into()),
            mode: self.mode,
            vert_nb: self.vert_nb,
            inst_nb: self.inst_nb,
            restart_index: self.restart_index,
            _phantom: PhantomData,
        }
    }
}

impl<'a, B, V, I, W, S> TessBuilder<'a, B, V, I, W, S> where
    B: ?Sized + TessBackend<V, I, W, S>,
    V: TessVertexData<S>,
    I: TessIndex,
    W: TessVertexData<S>,
    S: ?Sized,
 {
    /// Build a [`Tess`] if the [`TessBuilder`] has enough data and is in a valid state. What is
    /// needed is backend-dependent but most of the time, you will want to:
    ///
    /// - Set a [`Mode`].
    /// - Give vertex data and optionally indices, or give none of them (attributeless objects).
    /// - If you provide vertex data by submitting several sets with
    ///   [`TessBuilder::set_attribute_bytes`] and/or [`TessBuilder::set_instances`], do not forget
    ///   that you must submit sets with the same size. Otherwise, the GPU will not know what values
    ///   use for missing attributes in vertices.
    ///
    /// The number of vertices is the one asked for with [`TessBuilder::set_vertex_nb`], or, if none
    /// was, the number of indices if there are some, else the number of vertices; asking for more
    /// than the indices or vertices provide fails with [`TessError::LengthIncoherency`]. The number
    /// of instances is found in the same way from the instance data, and asking for instances
    /// without giving any instance data fails with [`TessError::AttributelessError`].
    pub fn build(self) -> (r: Result<Tess<B, V, I, W, S>, TessError>)
        ensures
            !self.spec_builds() ==> final(self.spec_backend()).spec_build_answers()
                == old(self.spec_backend()).spec_build_answers(),
            self.spec_builds() ==> final(self.spec_backend()).spec_build_answers()
                == old(self.spec_backend()).spec_build_answers().push(
                Tess::<B, V, I, W, S>::spec_answer(r),
            ),
            self.spec_guessed_vertex_len() is Err ==> r == Err::<Tess<B, V, I, W, S>, TessError>(
                self.spec_guessed_vertex_len()->Err_0,
            ),
            self.spec_guessed_vertex_len() is Ok && self.spec_instances_missing() ==> (r matches Err(
                TessError::AttributelessError(m),
            ) && m@ == "missing number of instances"@),
            self.spec_guessed_vertex_len() is Ok && !self.spec_instances_missing()
                && self.spec_guessed_instance_len() is Err ==> r == Err::<
                Tess<B, V, I, W, S>,
                TessError,
            >(self.spec_guessed_instance_len()->Err_0),
            r matches Ok(t) ==> {
                &&& self.spec_guessed_vertex_len() == Ok::<usize, TessError>(t.spec_vert_nb())
                &&& !self.spec_instances_missing()
                &&& self.spec_guessed_instance_len() == Ok::<usize, TessError>(t.spec_inst_nb())
                &&& t.spec_built() == (
                    self.spec_vertex_data(),
                    self.spec_instance_data(),
                    self.spec_index_data(),
                    self.spec_restart_index(),
                    self.spec_mode(),
                )
            },
    {
        let vert_nb = self.guess_vertex_len()?;
        let inst_nb = self.guess_instance_len()?;
        let repr = self.backend.build(
            (self.vertex_data, vert_nb),
            (self.instance_data, inst_nb),
            self.index_data,
            self.restart_index,
            self.mode,
        )?;
        Ok(Tess { repr, _phantom: PhantomData })
    }

    /// The number of vertices to render, or why there is none.
    fn guess_vertex_len(&self) -> (r: Result<usize, TessError>)
        ensures
            r == self.spec_guessed_vertex_len(),
    {
        if self.vert_nb == 0 {
            if self.index_data.len() == 0 {
                match &self.vertex_data {
                    Some(data) => V::coherent_len(data),
                    None => Ok(0),
                }
            } else {
                Ok(self.index_data.len())
            }
        } else {
            if self.index_data.len() == 0 {
                match &self.vertex_data {
                    Some(data) => {
                        let coherent_len = V::coherent_len(data)?;
                        if self.vert_nb <= coherent_len {
                            Ok(self.vert_nb)
                        } else {
                            Err(TessError::length_incoherency(self.vert_nb))
                        }
                    },
                    None => Ok(self.vert_nb),
                }
            } else {
                if self.vert_nb <= self.index_data.len() {
                    Ok(self.vert_nb)
                } else {
                    Err(TessError::length_incoherency(self.vert_nb))
                }
            }
        }
    }

    /// The number of instances to render, or why there is none.
    fn guess_instance_len(&self) -> (r: Result<usize, TessError>)
        ensures
            self.spec_instances_missing() ==> (r matches Err(TessError::AttributelessError(m))
                && m@ == "missing number of instances"@),
            !self.spec_instances_missing() ==> r == self.spec_guessed_instance_len(),
    {
        if self.inst_nb == 0 {
            match &self.instance_data {
                Some(data) => W::coherent_len(data),
                None => Ok(0),
            }
        } else {
            match &self.instance_data {
                None => {
                    let m = String::from_str("missing number of instances");
                    proof {
                        reveal_strlit("missing number of instances");
                    }
                    Err(TessError::AttributelessError(m))
                },
                Some(data) => {
                    let coherent_len = W::coherent_len(data)?;
                    if self.inst_nb <= coherent_len {
                        Ok(self.inst_nb)
                    } else {
                        Err(TessError::length_incoherency(self.inst_nb))
                    }
                },
            }
        }
    }
}

/// A GPU vertex set.
///
/// Vertex set are the only way to represent space data. The dimension you choose is up to you, but
/// people will typically want to represent objects in 2D or 3D. A _vertex_ is a point in such
/// space and it carries _properties_ — called _“vertex attributes_”. Those attributes are
/// completely free to use. They must, however, be compatible with the [`Semantics`] and [`Vertex`]
/// traits.
///
/// [`Tess`] are built out of [`TessBuilder`] and can be _sliced_ to edit their content in-line —
/// by mapping the GPU memory region and access data via slices.
///
/// [`Semantics`]: crate::vertex::Semantics
pub struct Tess<B, V, I = (), W = (), S = Interleaved> where
    B: ?Sized + TessBackend<V, I, W, S>,
    V: TessVertexData<S>,
    I: TessIndex,
    W: TessVertexData<S>,
    S: ?Sized,
 {
    pub(crate) repr: B::TessRepr,
    pub(crate) _phantom: PhantomData<S>,
}

impl<B, V, I, W, S> Tess<B, V, I, W, S> where
    B: ?Sized + TessBackend<V, I, W, S>,
    V: TessVertexData<S>,
    I: TessIndex,
    W: TessVertexData<S>,
    S: ?Sized,
 {
    /// The backend representation of the tessellation.
    pub closed spec fn spec_repr(&self) -> B::TessRepr {
        self.repr
    }

    /// What the backend answered when it was asked to build a tessellation: the representation
    /// of `r`, or its error.
    pub open spec fn spec_answer(r: Result<Self, TessError>) -> Result<B::TessRepr, TessError> {
        match r {
            Ok(t) => Ok(t.spec_repr()),
            Err(e) => Err(e),
        }
    }

    /// What the tessellation was built out of: its vertex data, instance data, index data,
    /// primitive restart index and primitive mode.
    pub closed spec fn spec_built(&self) -> (Option<V::Data>, Option<W::Data>, Seq<I>, Option<I>, Mode) {
        B::spec_built(&self.repr)
    }

    /// The number of vertices the tessellation renders by default.
    pub closed spec fn spec_vert_nb(&self) -> usize {
        B::spec_vertices_nb(&self.repr)
    }

    /// The number of instances the tessellation renders by default.
    pub closed spec fn spec_inst_nb(&self) -> usize {
        B::spec_instances_nb(&self.repr)
    }

    /// Get the number of vertices.
    pub fn vert_nb(&self) -> (r: usize)
        ensures
            r == self.spec_vert_nb(),
    {
        B::tess_vertices_nb(&self.repr)
    }

    /// Get the number of instances.
    pub fn inst_nb(&self) -> (r: usize)
        ensures
            r == self.spec_inst_nb(),
    {
        B::tess_instances_nb(&self.repr)
    }
}

/// What a view of `nb` vertices starting at vertex `start` of a tessellation holding `capacity`
/// vertices is: its start, its number of vertices and its number of instances, or the error that
/// refuses the window when it does not fit in the tessellation.
pub open spec fn spec_window(capacity: usize, start: usize, nb: usize, inst_nb: usize) -> Result<
    (usize, usize, usize),
    TessViewError,
> {
    if start + nb <= capacity {
        Ok((start, nb, inst_nb))
    } else {
        Err(TessViewError::IncorrectViewWindow { capacity, start, nb })
    }
}

/// A window of a tessellation is viewed exactly when it fits in the tessellation, and the view
/// is then that window.
pub proof fn law_window_fits(capacity: usize, start: usize, nb: usize, inst_nb: usize)
    ensures
        spec_window(capacity, start, nb, inst_nb) is Ok <==> start + nb <= capacity,
        start + nb <= capacity ==> spec_window(capacity, start, nb, inst_nb) == Ok::<
            (usize, usize, usize),
            TessViewError,
        >((start, nb, inst_nb)),
{
}

/// A _view_ into a GPU tessellation.
pub struct TessView<'a, B, V, I, W, S> where
    B: ?Sized + TessBackend<V, I, W, S>,
    V: TessVertexData<S>,
    I: TessIndex,
    W: TessVertexData<S>,
    S: ?Sized,
 {
    /// Tessellation to render.
    pub(crate) tess: &'a Tess<B, V, I, W, S>,
    /// Start index (vertex) in the tessellation.
    pub(crate) start_index: usize,
    /// Number of vertices to pick from the tessellation.
    pub(crate) vert_nb: usize,
    /// Number of instances to render.
    pub(crate) inst_nb: usize,
}

impl<'a, B, V, I, W, S> TessView<'a, B, V, I, W, S> where
    B: ?Sized + TessBackend<V, I, W, S>,
    V: TessVertexData<S>,
    I: TessIndex,
    W: TessVertexData<S>,
    S: ?Sized,
 {
    /// The viewed tessellation.
    pub closed spec fn spec_tess(&self) -> &'a Tess<B, V, I, W, S> {
        self.tess
    }

    /// The first vertex of the view.
    pub closed spec fn spec_start_index(&self) -> usize {
        self.start_index
    }

    /// The number of vertices of the view.
    pub closed spec fn spec_vert_nb(&self) -> usize {
        self.vert_nb
    }

    /// The number of instances the view renders.
    pub closed spec fn spec_inst_nb(&self) -> usize {
        self.inst_nb
    }

    /// The viewed tessellation, its representation and the window are the fields of the view.
    pub(crate) proof fn lemma_fields(&self)
        ensures
            self.spec_tess() == self.tess,
            self.tess.spec_repr() == self.tess.repr,
            self.spec_start_index() == self.start_index,
            self.spec_vert_nb() == self.vert_nb,
            self.spec_inst_nb() == self.inst_nb,
    {
    }

    /// Whether the view is the given window of `tess`.
    pub open spec fn spec_is_window(&self, tess: &Tess<B, V, I, W, S>, window: (usize, usize, usize)) -> bool {
        &&& self.spec_tess() == tess
        &&& self.spec_start_index() == window.0
        &&& self.spec_vert_nb() == window.1
        &&& self.spec_inst_nb() == window.2
    }

    /// Create a view that is using the whole input [`Tess`].
    pub fn whole(tess: &'a Tess<B, V, I, W, S>) -> (r: Self)
        ensures
            r.spec_is_window(tess, (0, tess.spec_vert_nb(), tess.spec_inst_nb())),
    {
        TessView { tess, start_index: 0, vert_nb: tess.vert_nb(), inst_nb: tess.inst_nb() }
    }

    /// Create a view that is using the whole input [`Tess`] with `inst_nb` instances.
    pub fn inst_whole(tess: &'a Tess<B, V, I, W, S>, inst_nb: usize) -> (r: Self)
        ensures
            r.spec_is_window(tess, (0, tess.spec_vert_nb(), inst_nb)),
    {
        TessView { tess, start_index: 0, vert_nb: tess.vert_nb(), inst_nb }
    }

    /// Create a view that is using only a subpart of the input [`Tess`], starting from the
    /// beginning of the vertices.
    pub fn sub(tess: &'a Tess<B, V, I, W, S>, vert_nb: usize) -> (r: Result<Self, TessViewError>)
        ensures
            match (r, spec_window(tess.spec_vert_nb(), 0, vert_nb, tess.spec_inst_nb())) {
                (Ok(v), Ok(w)) => v.spec_is_window(tess, w),
                (Err(e), Err(f)) => e == f,
                _ => false,
            },
    {
        let capacity = tess.vert_nb();
        if vert_nb > capacity {
            return Err(TessViewError::IncorrectViewWindow { capacity, start: 0, nb: vert_nb });
        }
        Ok(TessView { tess, start_index: 0, vert_nb, inst_nb: tess.inst_nb() })
    }

    /// Create a view that is using only a subpart of the input [`Tess`], starting from the
    /// beginning of the vertices, with `inst_nb` instances.
    pub fn inst_sub(tess: &'a Tess<B, V, I, W, S>, vert_nb: usize, inst_nb: usize) -> (r: Result<
        Self,
        TessViewError,
    >)
        ensures
            match (r, spec_window(tess.spec_vert_nb(), 0, vert_nb, inst_nb)) {
                (Ok(v), Ok(w)) => v.spec_is_window(tess, w),
                (Err(e), Err(f)) => e == f,
                _ => false,
            },
    {
        let capacity = tess.vert_nb();
        if vert_nb > capacity {
            return Err(TessViewError::IncorrectViewWindow { capacity, start: 0, nb: vert_nb });
        }
        Ok(TessView { tess, start_index: 0, vert_nb, inst_nb })
    }

    /// Create a view that is using only a subpart of the input [`Tess`], starting from `start`,
    /// with `nb` vertices.
    pub fn slice(tess: &'a Tess<B, V, I, W, S>, start: usize, nb: usize) -> (r: Result<
        Self,
        TessViewError,
    >)
        requires
            start > tess.spec_vert_nb() || start + nb <= usize::MAX,
        ensures
            match (r, spec_window(tess.spec_vert_nb(), start, nb, tess.spec_inst_nb())) {
                (Ok(v), Ok(w)) => v.spec_is_window(tess, w),
                (Err(e), Err(f)) => e == f,
                _ => false,
            },
    {
        let capacity = tess.vert_nb();
        if start > capacity || nb + start > capacity {
            return Err(TessViewError::IncorrectViewWindow { capacity, start, nb });
        }
        Ok(TessView { tess, start_index: start, vert_nb: nb, inst_nb: tess.inst_nb() })
    }

    /// Create a view that is using only a subpart of the input [`Tess`], starting from `start`,
    /// with `nb` vertices and `inst_nb` instances.
    pub fn inst_slice(tess: &'a Tess<B, V, I, W, S>, start: usize, nb: usize, inst_nb: usize) -> (r:
        Result<Self, TessViewError>)
        requires
            start > tess.spec_vert_nb() || start + nb <= usize::MAX,
        ensures
            match (r, spec_window(tess.spec_vert_nb(), start, nb, inst_nb)) {
                (Ok(v), Ok(w)) => v.spec_is_window(tess, w),
                (Err(e), Err(f)) => e == f,
                _ => false,
            },
    {
        let capacity = tess.vert_nb();
        if start > capacity || nb + start > capacity {
            return Err(TessViewError::IncorrectViewWindow { capacity, start, nb });
        }
        Ok(TessView { tess, start_index: start, vert_nb: nb, inst_nb })
    }
}

/// [`TessView`] helper trait.
///
/// This trait helps to create [`TessView`] by allowing using the Rust range operators, such as
///
/// - [`..`](https://doc.rust-lang.org/std/ops/struct.RangeFull.html); the full range operator.
/// - [`a ..`](https://doc.rust-lang.org/std/ops/struct.RangeFrom.html); the range-from operator.
/// - [`.. b`](https://doc.rust-lang.org/std/ops/struct.RangeTo.html); the range-to operator.
/// - [`..= b`](https://doc.rust-lang.org/std/ops/struct.RangeToInclusive.html); the inclusive range-to operator.
/// - [`a .. b`](https://doc.rust-lang.org/std/ops/struct.Range.html); the range operator.
/// - [`a ..= b`](https://doc.rust-lang.org/std/ops/struct.RangeInclusive.html); the inclusive range operator.
pub trait View<B, V, I, W, S, Idx> where
    B: ?Sized + TessBackend<V, I, W, S>,
    V: TessVertexData<S>,
    I: TessIndex,
    W: TessVertexData<S>,
    S: ?Sized,
 {
    /// Whether the window of the range can be computed: a range whose bounds are reversed, or
    /// whose number of vertices does not fit in a `usize`, has none.
    spec fn spec_range_ok(&self, idx: Idx) -> bool;

    /// The view that the range gives, with `inst_nb` instances, or the error that refuses it.
    spec fn spec_view(&self, idx: Idx, inst_nb: usize) -> Result<(usize, usize, usize), TessViewError>;

    /// The number of instances a view renders when none is given.
    spec fn spec_default_inst_nb(&self) -> usize;

    /// Slice a tessellation object and yields a [`TessView`] according to the index range.
    fn view(&self, idx: Idx) -> (r: Result<TessView<B, V, I, W, S>, TessViewError>)
        requires
            self.spec_range_ok(idx),
        ensures
            match (r, self.spec_view(idx, self.spec_default_inst_nb())) {
                (Ok(v), Ok(w)) => v.spec_start_index() == w.0 && v.spec_vert_nb() == w.1
                    && v.spec_inst_nb() == w.2,
                (Err(e), Err(f)) => e == f,
                _ => false,
            },
    ;

    /// Slice a tesselation object and yields a [`TessView`] according to the index range with as
    /// many instances as specified.
    fn inst_view(&self, idx: Idx, inst_nb: usize) -> (r: Result<
        TessView<B, V, I, W, S>,
        TessViewError,
    >)
        requires
            self.spec_range_ok(idx),
        ensures
            match (r, self.spec_view(idx, inst_nb)) {
                (Ok(v), Ok(w)) => v.spec_start_index() == w.0 && v.spec_vert_nb() == w.1
                    && v.spec_inst_nb() == w.2,
                (Err(e), Err(f)) => e == f,
                _ => false,
            },
    ;
}

impl<B, V, I, W, S> View<B, V, I, W, S, RangeFull> for Tess<B, V, I, W, S> where
    B: ?Sized + TessBackend<V, I, W, S>,
    V: TessVertexData<S>,
    I: TessIndex,
    W: TessVertexData<S>,
    S: ?Sized,
 {
    open spec fn spec_range_ok(&self, idx: RangeFull) -> bool {
        true
    }

    open spec fn spec_view(&self, idx: RangeFull, inst_nb: usize) -> Result<(usize, usize, usize), TessViewError> {
        spec_window(self.spec_vert_nb(), 0, self.spec_vert_nb(), inst_nb)
    }

    open spec fn spec_default_inst_nb(&self) -> usize {
        self.spec_inst_nb()
    }

    fn view(&self, idx: RangeFull) -> (r: Result<TessView<B, V, I, W, S>, TessViewError>) {
        Ok(TessView::whole(self))
    }

    fn inst_view(&self, idx: RangeFull, inst_nb: usize) -> (r: Result<
        TessView<B, V, I, W, S>,
        TessViewError,
    >) {
        Ok(TessView::inst_whole(self, inst_nb))
    }
}

impl<B, V, I, W, S> View<B, V, I, W, S, RangeTo<usize>> for Tess<B, V, I, W, S> where
    B: ?Sized + TessBackend<V, I, W, S>,
    V: TessVertexData<S>,
    I: TessIndex,
    W: TessVertexData<S>,
    S: ?Sized,
 {
    open spec fn spec_range_ok(&self, to: RangeTo<usize>) -> bool {
        true
    }

    open spec fn spec_view(&self, to: RangeTo<usize>, inst_nb: usize) -> Result<(usize, usize, usize), TessViewError> {
        spec_window(self.spec_vert_nb(), 0, to.end, inst_nb)
    }

    open spec fn spec_default_inst_nb(&self) -> usize {
        self.spec_inst_nb()
    }

    fn view(&self, to: RangeTo<usize>) -> (r: Result<TessView<B, V, I, W, S>, TessViewError>) {
        TessView::sub(self, to.end)
    }

    fn inst_view(&self, to: RangeTo<usize>, inst_nb: usize) -> (r: Result<
        TessView<B, V, I, W, S>,
        TessViewError,
    >) {
        TessView::inst_sub(self, to.end, inst_nb)
    }
}

impl<B, V, I, W, S> View<B, V, I, W, S, RangeFrom<usize>> for Tess<B, V, I, W, S> where
    B: ?Sized + TessBackend<V, I, W, S>,
    V: TessVertexData<S>,
    I: TessIndex,
    W: TessVertexData<S>,
    S: ?Sized,
 {
    open spec fn spec_range_ok(&self, from: RangeFrom<usize>) -> bool {
        from.start <= self.spec_vert_nb()
    }

    open spec fn spec_view(&self, from: RangeFrom<usize>, inst_nb: usize) -> Result<(usize, usize, usize), TessViewError> {
        spec_window(
            self.spec_vert_nb(),
            from.start,
            (self.spec_vert_nb() - from.start) as usize,
            inst_nb,
        )
    }

    open spec fn spec_default_inst_nb(&self) -> usize {
        self.spec_inst_nb()
    }

    fn view(&self, from: RangeFrom<usize>) -> (r: Result<TessView<B, V, I, W, S>, TessViewError>) {
        TessView::slice(self, from.start, self.vert_nb() - from.start)
    }

    fn inst_view(&self, from: RangeFrom<usize>, inst_nb: usize) -> (r: Result<
        TessView<B, V, I, W, S>,
        TessViewError,
    >) {
        TessView::inst_slice(self, from.start, self.vert_nb() - from.start, inst_nb)
    }
}

impl<B, V, I, W, S> View<B, V, I, W, S, Range<usize>> for Tess<B, V, I, W, S> where
    B: ?Sized + TessBackend<V, I, W, S>,
    V: TessVertexData<S>,
    I: TessIndex,
    W: TessVertexData<S>,
    S: ?Sized,
 {
    open spec fn spec_range_ok(&self, range: Range<usize>) -> bool {
        range.start <= range.end
    }

    open spec fn spec_view(&self, range: Range<usize>, inst_nb: usize) -> Result<(usize, usize, usize), TessViewError> {
        spec_window(self.spec_vert_nb(), range.start, (range.end - range.start) as usize, inst_nb)
    }

    open spec fn spec_default_inst_nb(&self) -> usize {
        self.spec_inst_nb()
    }

    fn view(&self, range: Range<usize>) -> (r: Result<TessView<B, V, I, W, S>, TessViewError>) {
        TessView::slice(self, range.start, range.end - range.start)
    }

    fn inst_view(&self, range: Range<usize>, inst_nb: usize) -> (r: Result<
        TessView<B, V, I, W, S>,
        TessViewError,
    >) {
        TessView::inst_slice(self, range.start, range.end - range.start, inst_nb)
    }
}

impl<B, V, I, W, S> View<B, V, I, W, S, RangeInclusive<usize>> for Tess<B, V, I, W, S> where
    B: ?Sized + TessBackend<V, I, W, S>,
    V: TessVertexData<S>,
    I: TessIndex,
    W: TessVertexData<S>,
    S: ?Sized,
 {
    open spec fn spec_range_ok(&self, range: RangeInclusive<usize>) -> bool {
        &&& range@.start <= range@.end
        &&& range@.end - range@.start < usize::MAX
        &&& (range@.start > self.spec_vert_nb() || range@.end < usize::MAX)
    }

    open spec fn spec_view(&self, range: RangeInclusive<usize>, inst_nb: usize) -> Result<
        (usize, usize, usize),
        TessViewError,
    > {
        spec_window(
            self.spec_vert_nb(),
            range@.start,
            (range@.end - range@.start + 1) as usize,
            inst_nb,
        )
    }

    open spec fn spec_default_inst_nb(&self) -> usize {
        self.spec_inst_nb()
    }

    fn view(&self, range: RangeInclusive<usize>) -> (r: Result<TessView<B, V, I, W, S>, TessViewError>) {
        let start = *range.start();
        let end = *range.end();
        TessView::slice(self, start, end - start + 1)
    }

    fn inst_view(&self, range: RangeInclusive<usize>, inst_nb: usize) -> (r: Result<
        TessView<B, V, I, W, S>,
        TessViewError,
    >) {
        let start = *range.start();
        let end = *range.end();
        TessView::inst_slice(self, start, end - start + 1, inst_nb)
    }
}

impl<B, V, I, W, S> View<B, V, I, W, S, RangeToInclusive<usize>> for Tess<B, V, I, W, S> where
    B: ?Sized + TessBackend<V, I, W, S>,
    V: TessVertexData<S>,
    I: TessIndex,
    W: TessVertexData<S>,
    S: ?Sized,
 {
    open spec fn spec_range_ok(&self, to: RangeToInclusive<usize>) -> bool {
        to.end < usize::MAX
    }

    open spec fn spec_view(&self, to: RangeToInclusive<usize>, inst_nb: usize) -> Result<
        (usize, usize, usize),
        TessViewError,
    > {
        spec_window(self.spec_vert_nb(), 0, (to.end + 1) as usize, inst_nb)
    }

    open spec fn spec_default_inst_nb(&self) -> usize {
        self.spec_inst_nb()
    }

    fn view(&self, to: RangeToInclusive<usize>) -> (r: Result<TessView<B, V, I, W, S>, TessViewError>) {
        TessView::sub(self, to.end + 1)
    }

    fn inst_view(&self, to: RangeToInclusive<usize>, inst_nb: usize) -> (r: Result<
        TessView<B, V, I, W, S>,
        TessViewError,
    >) {
        TessView::inst_sub(self, to.end + 1, inst_nb)
    }
}

/// The attribute sets of a deinterleaved vertex type with `count` attributes, before any is set:
/// each is empty.
pub open spec fn spec_empty_attribute_sets(count: nat) -> Seq<(Seq<u8>, usize)> {
    Seq::new(count, |i: int| (Seq::<u8>::empty(), 0usize))
}

/// The raw bytes and number of attributes of each set of deinterleaved data.
pub open spec fn spec_attribute_sets(data: Seq<DeinterleavedData>) -> Seq<(Seq<u8>, usize)> {
    data.map_values(|d: DeinterleavedData| (d.spec_raw(), d.spec_len()))
}

/// The attribute sets `sets`, where none yet means `count` empty ones, with the set of rank `rank`
/// replaced by `len` attributes held in the bytes `raw`.
pub open spec fn spec_set_attribute_set(
    sets: Option<Seq<DeinterleavedData>>,
    count: nat,
    rank: int,
    raw: Seq<u8>,
    len: usize,
) -> Seq<(Seq<u8>, usize)> {
    let before = match sets {
        Some(d) => spec_attribute_sets(d),
        None => spec_empty_attribute_sets(count),
    };
    before.update(rank, (raw, len))
}

/// `count` empty attribute sets.
fn empty_attribute_sets(count: usize) -> (r: Vec<DeinterleavedData>)
    ensures
        r@.len() == count,
        spec_attribute_sets(r@) == spec_empty_attribute_sets(count as nat),
{
    let mut r: Vec<DeinterleavedData> = Vec::new();
    let mut i: usize = 0;
    while i < count
        invariant
            i <= count,
            r@.len() == i,
            spec_attribute_sets(r@) == spec_empty_attribute_sets(i as nat),
        decreases count - i,
    {
        let ghost prev = r@;
        let empty = DeinterleavedData::new();
        r.push(empty);
        i = i + 1;
        proof {
            assert forall|j: int| 0 <= j < i implies #[trigger] spec_attribute_sets(r@)[j]
                == spec_empty_attribute_sets(i as nat)[j] by {
                if j < prev.len() {
                    assert(spec_attribute_sets(prev)[j] == spec_empty_attribute_sets(
                        (i - 1) as nat,
                    )[j]);
                    assert(r@[j] == prev[j]);
                } else {
                    assert(r@[j] == empty);
                }
            }
            assert(spec_attribute_sets(r@) =~= spec_empty_attribute_sets(i as nat));
        }
    }
    r
}

/// Replace the attribute set of rank `rank` of `sets` (or of `count` empty sets, when there are
/// none yet) by `len` attributes held in the bytes `raw`.
fn set_attribute_set(
    sets: Option<Vec<DeinterleavedData>>,
    count: usize,
    rank: usize,
    raw: Vec<u8>,
    len: usize,
) -> (r: Vec<DeinterleavedData>)
    requires
        match sets {
            Some(d) => rank < d@.len(),
            None => rank < count,
        },
    ensures
        spec_attribute_sets(r@) == spec_set_attribute_set(
            match sets {
                Some(d) => Some(d@),
                None => None,
            },
            count as nat,
            rank as int,
            raw@,
            len,
        ),
{
    let mut data = match sets {
        Some(d) => d,
        None => empty_attribute_sets(count),
    };
    let ghost before = data@;
    data.set(rank, DeinterleavedData { raw, len });
    proof {
        assert(spec_attribute_sets(data@) =~= spec_attribute_sets(before).update(
            rank as int,
            (raw@, len),
        ));
    }
    data
}

impl<'a, B, V, I, W> TessBuilder<'a, B, V, I, W, Deinterleaved> where
    B: ?Sized,
    V: TessVertexData<Deinterleaved, Data = Vec<DeinterleavedData>>,
    I: TessIndex,
    W: TessVertexData<Deinterleaved, Data = Vec<DeinterleavedData>>,
 {
    /// Set the attribute set of type `A` of the vertices: `len` attributes, whose bytes are `raw`.
    ///
    /// The set takes the rank of `A` in `V`; the other sets are kept, or are empty if none was set
    /// yet.
    pub fn set_attribute_bytes<A>(self, raw: Vec<u8>, len: usize) -> (r: Self) where
        V: Deinterleave<A>,
        requires
            match self.spec_vertex_data() {
                Some(d) => V::RANK < d@.len(),
                None => V::RANK < V::ATTR_COUNT,
            },
        ensures
            r.spec_vertex_data() matches Some(d) && spec_attribute_sets(d@) == spec_set_attribute_set(
                match self.spec_vertex_data() {
                    Some(d) => Some(d@),
                    None => None,
                },
                V::ATTR_COUNT as nat,
                V::RANK as int,
                raw@,
                len,
            ),
            r.spec_index_data() == self.spec_index_data(),
            r.spec_instance_data() == self.spec_instance_data(),
            r.spec_restart_index() == self.spec_restart_index(),
            r.spec_mode() == self.spec_mode(),
            r.spec_vert_nb() == self.spec_vert_nb(),
            r.spec_inst_nb() == self.spec_inst_nb(),
    {
        let data = set_attribute_set(self.vertex_data, V::ATTR_COUNT, V::RANK, raw, len);
        TessBuilder {
            backend: self.backend,
            vertex_data: Some(data),
            index_data: self.index_data,
            instance_data: self.instance_data,
            mode: self.mode,
            vert_nb: self.vert_nb,
            inst_nb: self.inst_nb,
            restart_index: self.restart_index,
            _phantom: PhantomData,
        }
    }

    /// Set the attribute set of type `A` of the instances: `len` attributes, whose bytes are
    /// `raw`.
    ///
    /// The set takes the rank of `A` in `W`; the other sets are kept, or are empty if none was set
    /// yet.
    pub fn set_instance_attribute_bytes<A>(self, raw: Vec<u8>, len: usize) -> (r: Self) where
        W: Deinterleave<A>,
        requires
            match self.spec_instance_data() {
                Some(d) => W::RANK < d@.len(),
                None => W::RANK < W::ATTR_COUNT,
            },
        ensures
            r.spec_instance_data() matches Some(d) && spec_attribute_sets(d@) == spec_set_attribute_set(
                match self.spec_instance_data() {
                    Some(d) => Some(d@),
                    None => None,
                },
                W::ATTR_COUNT as nat,
                W::RANK as int,
                raw@,
                len,
            ),
            r.spec_vertex_data() == self.spec_vertex_data(),
            r.spec_index_data() == self.spec_index_data(),
            r.spec_restart_index() == self.spec_restart_index(),
            r.spec_mode() == self.spec_mode(),
            r.spec_vert_nb() == self.spec_vert_nb(),
            r.spec_inst_nb() == self.spec_inst_nb(),
    {
        let data = set_attribute_set(self.instance_data, W::ATTR_COUNT, W::RANK, raw, len);
        TessBuilder {
            backend: self.backend,
            vertex_data: self.vertex_data,
            index_data: self.index_data,
            instance_data: Some(data),
            mode: self.mode,
            vert_nb: self.vert_nb,
            inst_nb: self.inst_nb,
            restart_index: self.restart_index,
            _phantom: PhantomData,
        }
    }
}

impl<B, V, I, W, S> Tess<B, V, I, W, S> where
    B: ?Sized + TessBackend<V, I, W, S>,
    V: TessVertexData<S>,
    I: TessIndex,
    W: TessVertexData<S>,
    S: ?Sized,
 {
    /// Slice the [`Tess`] in order to read its content via usual slices.
    ///
    /// This method gives access to the underlying _index storage_.
    pub fn indices(&mut self) -> Result<Indices<B, V, I, W, S>, TessMapError> where
        B: IndexSliceBackend<V, I, W, S>,
     {
        let repr = B::indices(&mut self.repr)?;
        Ok(Indices { repr })
    }

    /// Slice the [`Tess`] in order to read its content via usual slices.
    ///
    /// This method gives access to the underlying _index storage_.
    pub fn indices_mut(&mut self) -> Result<IndicesMut<B, V, I, W, S>, TessMapError> where
        B: IndexSliceBackend<V, I, W, S>,
     {
        let repr = B::indices_mut(&mut self.repr)?;
        Ok(IndicesMut { repr })
    }
}

impl<B, V, I, W> Tess<B, V, I, W, Interleaved> where
    B: ?Sized + TessBackend<V, I, W, Interleaved>,
    V: TessVertexData<Interleaved>,
    I: TessIndex,
    W: TessVertexData<Interleaved>,
 {
    /// Slice the [`Tess`] in order to read its content via usual slices.
    ///
    /// This method gives access to the underlying _vertex storage_.
    pub fn vertices(&mut self) -> Result<Vertices<B, V, I, W, Interleaved, V>, TessMapError> where
        B: VertexSliceBackend<V, I, W, Interleaved, V>,
     {
        let repr = B::vertices(&mut self.repr)?;
        Ok(Vertices { repr })
    }

    /// Slice the [`Tess`] in order to read its content via usual slices.
    ///
    /// This method gives access to the underlying _vertex storage_.
    pub fn vertices_mut(&mut self) -> Result<VerticesMut<B, V, I, W, Interleaved, V>, TessMapError> where
        B: VertexSliceBackend<V, I, W, Interleaved, V>,
     {
        let repr = B::vertices_mut(&mut self.repr)?;
        Ok(VerticesMut { repr })
    }

    /// Slice the [`Tess`] in order to read its content via usual slices.
    ///
    /// This method gives access to the underlying _instance storage_.
    pub fn instances(&mut self) -> Result<Instances<B, V, I, W, Interleaved, V>, TessMapError> where
        B: InstanceSliceBackend<V, I, W, Interleaved, V>,
     {
        let repr = B::instances(&mut self.repr)?;
        Ok(Instances { repr })
    }

    /// Slice the [`Tess`] in order to read its content via usual slices.
    ///
    /// This method gives access to the underlying _instance storage_.
    pub fn instances_mut(&mut self) -> Result<InstancesMut<B, V, I, W, Interleaved, V>, TessMapError> where
        B: InstanceSliceBackend<V, I, W, Interleaved, V>,
     {
        let repr = B::instances_mut(&mut self.repr)?;
        Ok(InstancesMut { repr })
    }
}

impl<B, V, I, W> Tess<B, V, I, W, Deinterleaved> where
    B: ?Sized + TessBackend<V, I, W, Deinterleaved>,
    V: TessVertexData<Deinterleaved>,
    I: TessIndex,
    W: TessVertexData<Deinterleaved>,
 {
    /// Slice the [`Tess`] in order to read its content via usual slices.
    ///
    /// This method gives access to the underlying _vertex storage_ of the attributes of type `T`.
    pub fn vertices<T>(&mut self) -> Result<Vertices<B, V, I, W, Deinterleaved, T>, TessMapError> where
        B: VertexSliceBackend<V, I, W, Deinterleaved, T>,
        V: Deinterleave<T>,
     {
        let repr = B::vertices(&mut self.repr)?;
        Ok(Vertices { repr })
    }

    /// Slice the [`Tess`] in order to read its content via usual slices.
    ///
    /// This method gives access to the underlying _vertex storage_ of the attributes of type `T`.
    pub fn vertices_mut<T>(&mut self) -> Result<VerticesMut<B, V, I, W, Deinterleaved, T>, TessMapError> where
        B: VertexSliceBackend<V, I, W, Deinterleaved, T>,
        V: Deinterleave<T>,
     {
        let repr = B::vertices_mut(&mut self.repr)?;
        Ok(VerticesMut { repr })
    }

    /// Slice the [`Tess`] in order to read its content via usual slices.
    ///
    /// This method gives access to the underlying _instance storage_ of the attributes of type
    /// `T`.
    pub fn instances<T>(&mut self) -> Result<Instances<B, V, I, W, Deinterleaved, T>, TessMapError> where
        B: InstanceSliceBackend<V, I, W, Deinterleaved, T>,
        W: Deinterleave<T>,
     {
        let repr = B::instances(&mut self.repr)?;
        Ok(Instances { repr })
    }

    /// Slice the [`Tess`] in order to read its content via usual slices.
    ///
    /// This method gives access to the underlying _instance storage_ of the attributes of type
    /// `T`.
    pub fn instances_mut<T>(&mut self) -> Result<InstancesMut<B, V, I, W, Deinterleaved, T>, TessMapError> where
        B: InstanceSliceBackend<V, I, W, Deinterleaved, T>,
        W: Deinterleave<T>,
     {
        let repr = B::instances_mut(&mut self.repr)?;
        Ok(InstancesMut { repr })
    }
}

/// Vertices can be obtained only via the [`Tess::vertices`] method.
pub struct Vertices<B, V, I, W, S, T> where
    B: ?Sized + TessBackend<V, I, W, S> + VertexSliceBackend<V, I, W, S, T>,
    V: TessVertexData<S>,
    I: TessIndex,
    W: TessVertexData<S>,
    S: ?Sized,
 {
    repr: B::VertexSliceRepr,
}

impl<B, V, I, W, S, T> Deref for Vertices<B, V, I, W, S, T> where
    B: ?Sized + TessBackend<V, I, W, S> + VertexSliceBackend<V, I, W, S, T>,
    V: TessVertexData<S>,
    I: TessIndex,
    W: TessVertexData<S>,
    S: ?Sized,
 {
    type Target = [T];

    fn deref(&self) -> &[T] {
        self.repr.deref()
    }
}

/// Vertices can be obtained only via the [`Tess::vertices_mut`] method.
pub struct VerticesMut<B, V, I, W, S, T> where
    B: ?Sized + TessBackend<V, I, W, S> + VertexSliceBackend<V, I, W, S, T>,
    V: TessVertexData<S>,
    I: TessIndex,
    W: TessVertexData<S>,
    S: ?Sized,
 {
    repr: B::VertexSliceMutRepr,
}

impl<B, V, I, W, S, T> Deref for VerticesMut<B, V, I, W, S, T> where
    B: ?Sized + TessBackend<V, I, W, S> + VertexSliceBackend<V, I, W, S, T>,
    V: TessVertexData<S>,
    I: TessIndex,
    W: TessVertexData<S>,
    S: ?Sized,
 {
    type Target = [T];

    fn deref(&self) -> &[T] {
        self.repr.deref()
    }
}

impl<B, V, I, W, S, T> DerefMut for VerticesMut<B, V, I, W, S, T> where
    B: ?Sized + TessBackend<V, I, W, S> + VertexSliceBackend<V, I, W, S, T>,
    V: TessVertexData<S>,
    I: TessIndex,
    W: TessVertexData<S>,
    S: ?Sized,
 {
    fn deref_mut(&mut self) -> &mut [T] {
        self.repr.deref_mut()
    }
}

/// Indices can be obtained only via the [`Tess::indices`] method.
pub struct Indices<B, V, I, W, S> where
    B: ?Sized + TessBackend<V, I, W, S> + IndexSliceBackend<V, I, W, S>,
    V: TessVertexData<S>,
    I: TessIndex,
    W: TessVertexData<S>,
    S: ?Sized,
 {
    repr: B::IndexSliceRepr,
}

impl<B, V, I, W, S> Deref for Indices<B, V, I, W, S> where
    B: ?Sized + TessBackend<V, I, W, S> + IndexSliceBackend<V, I, W, S>,
    V: TessVertexData<S>,
    I: TessIndex,
    W: TessVertexData<S>,
    S: ?Sized,
 {
    type Target = [I];

    fn deref(&self) -> &[I] {
        self.repr.deref()
    }
}

/// Indices can be obtained only via the [`Tess::indices_mut`] method.
pub struct IndicesMut<B, V, I, W, S> where
    B: ?Sized + TessBackend<V, I, W, S> + IndexSliceBackend<V, I, W, S>,
    V: TessVertexData<S>,
    I: TessIndex,
    W: TessVertexData<S>,
    S: ?Sized,
 {
    repr: B::IndexSliceMutRepr,
}

impl<B, V, I, W, S> Deref for IndicesMut<B, V, I, W, S> where
    B: ?Sized + TessBackend<V, I, W, S> + IndexSliceBackend<V, I, W, S>,
    V: TessVertexData<S>,
    I: TessIndex,
    W: TessVertexData<S>,
    S: ?Sized,
 {
    type Target = [I];

    fn deref(&self) -> &[I] {
        self.repr.deref()
    }
}

impl<B, V, I, W, S> DerefMut for IndicesMut<B, V, I, W, S> where
    B: ?Sized + TessBackend<V, I, W, S> + IndexSliceBackend<V, I, W, S>,
    V: TessVertexData<S>,
    I: TessIndex,
    W: TessVertexData<S>,
    S: ?Sized,
 {
    fn deref_mut(&mut self) -> &mut [I] {
        self.repr.deref_mut()
    }
}

/// Instances can be obtained only via the [`Tess::instances`] method.
pub struct Instances<B, V, I, W, S, T> where
    B: ?Sized + TessBackend<V, I, W, S> + InstanceSliceBackend<V, I, W, S, T>,
    V: TessVertexData<S>,
    I: TessIndex,
    W: TessVertexData<S>,
    S: ?Sized,
 {
    repr: B::InstanceSliceRepr,
}

impl<B, V, I, W, S, T> Deref for Instances<B, V, I, W, S, T> where
    B: ?Sized + TessBackend<V, I, W, S> + InstanceSliceBackend<V, I, W, S, T>,
    V: TessVertexData<S>,
    I: TessIndex,
    W: TessVertexData<S>,
    S: ?Sized,
 {
    type Target = [T];

    fn deref(&self) -> &[T] {
        self.repr.deref()
    }
}

/// Instances can be obtained only via the [`Tess::instances_mut`] method.
pub struct InstancesMut<B, V, I, W, S, T> where
    B: ?Sized + TessBackend<V, I, W, S> + InstanceSliceBackend<V, I, W, S, T>,
    V: TessVertexData<S>,
    I: TessIndex,
    W: TessVertexData<S>,
    S: ?Sized,
 {
    repr: B::InstanceSliceMutRepr,
}

impl<B, V, I, W, S, T> Deref for InstancesMut<B, V, I, W, S, T> where
    B: ?Sized + TessBackend<V, I, W, S> + InstanceSliceBackend<V, I, W, S, T>,
    V: TessVertexData<S>,
    I: TessIndex,
    W: TessVertexData<S>,
    S: ?Sized,
 {
    type Target = [T];

    fn deref(&self) -> &[T] {
        self.repr.deref()
    }
}

impl<B, V, I, W, S, T> DerefMut for InstancesMut<B, V, I, W, S, T> where
    B: ?Sized + TessBackend<V, I, W, S> + InstanceSliceBackend<V, I, W, S, T>,
    V: TessVertexData<S>,
    I: TessIndex,
    W: TessVertexData<S>,
    S: ?Sized,
 {
    fn deref_mut(&mut self) -> &mut [T] {
        self.repr.deref_mut()
    }
}

impl<'a, B, V, I, W, S> From<&'a Tess<B, V, I, W, S>> for TessView<'a, B, V, I, W, S> where
    B: ?Sized + TessBackend<V, I, W, S>,
    V: TessVertexData<S>,
    I: TessIndex,
    W: TessVertexData<S>,
    S: ?Sized,
 {
    fn from(tess: &'a Tess<B, V, I, W, S>) -> (r: Self) {
        let r = TessView::whole(tess);
        proof {
            let v = choose|v: Self| v.spec_is_window(tess, (0, tess.spec_vert_nb(), tess.spec_inst_nb()));
            assert(v.spec_is_window(tess, (0, tess.spec_vert_nb(), tess.spec_inst_nb())));
            assert(v == r);
        }
        r
    }
}

impl<'a, B, V, I, W, S> FromSpecImpl<&'a Tess<B, V, I, W, S>> for TessView<'a, B, V, I, W, S> where
    B: ?Sized + TessBackend<V, I, W, S>,
    V: TessVertexData<S>,
    I: TessIndex,
    W: TessVertexData<S>,
    S: ?Sized,
 {
    open spec fn obeys_from_spec() -> bool {
        true
    }

    /// A tessellation is viewed whole.
    open spec fn from_spec(tess: &'a Tess<B, V, I, W, S>) -> Self {
        choose|v: Self| v.spec_is_window(tess, (0, tess.spec_vert_nb(), tess.spec_inst_nb()))
    }
}


/// A view of the vertices `start..end` with `n` instances starts at `start`, has `end - start`
/// vertices and `n` instances when the range lies in the tessellation, and is the view of the
/// range with only the instance count changed; a range past the end is refused.
pub proof fn law_view_range<B, V, I, W, S>(tess: &Tess<B, V, I, W, S>, range: Range<usize>, n: usize) where
    B: ?Sized + TessBackend<V, I, W, S>,
    V: TessVertexData<S>,
    I: TessIndex,
    W: TessVertexData<S>,
    S: ?Sized,
    requires
        range.start <= range.end,
    ensures
        <Tess<B, V, I, W, S> as View<B, V, I, W, S, Range<usize>>>::spec_default_inst_nb(tess) == tess.spec_inst_nb(),
        range.end <= tess.spec_vert_nb() ==> <Tess<B, V, I, W, S> as View<B, V, I, W, S, Range<usize>>>::spec_view(tess, range, n) == Ok::<(usize, usize, usize), TessViewError>(
            (range.start, (range.end - range.start) as usize, n),
        ),
        !(range.end <= tess.spec_vert_nb()) ==> <Tess<B, V, I, W, S> as View<B, V, I, W, S, Range<usize>>>::spec_view(tess, range, n) == Err::<(usize, usize, usize), TessViewError>(
            TessViewError::IncorrectViewWindow { capacity: tess.spec_vert_nb(), start: range.start, nb: (range.end - range.start) as usize },
        ),
        <Tess<B, V, I, W, S> as View<B, V, I, W, S, Range<usize>>>::spec_view(tess, range, n) matches Ok(w) ==> w.2 == n && <Tess<B, V, I, W, S> as View<B, V, I, W, S, Range<usize>>>::spec_view(
            tess,
            range,
            tess.spec_inst_nb(),
        ) == Ok::<(usize, usize, usize), TessViewError>((w.0, w.1, tess.spec_inst_nb())),
{
}

/// A view of the vertices `start..=end` with `n` instances starts at `start`, has
/// `end - start + 1` vertices and `n` instances when the range lies in the tessellation, and is
/// the view of the range with only the instance count changed; a range past the end is refused.
pub proof fn law_view_range_inclusive<B, V, I, W, S>(tess: &Tess<B, V, I, W, S>, range: RangeInclusive<usize>, n: usize) where
    B: ?Sized + TessBackend<V, I, W, S>,
    V: TessVertexData<S>,
    I: TessIndex,
    W: TessVertexData<S>,
    S: ?Sized,
    requires
        range@.start <= range@.end && range@.end < usize::MAX,
    ensures
        <Tess<B, V, I, W, S> as View<B, V, I, W, S, RangeInclusive<usize>>>::spec_default_inst_nb(tess) == tess.spec_inst_nb(),
        range@.end < tess.spec_vert_nb() ==> <Tess<B, V, I, W, S> as View<B, V, I, W, S, RangeInclusive<usize>>>::spec_view(tess, range, n) == Ok::<(usize, usize, usize), TessViewError>(
            (range@.start, (range@.end - range@.start + 1) as usize, n),
        ),
        !(range@.end < tess.spec_vert_nb()) ==> <Tess<B, V, I, W, S> as View<B, V, I, W, S, RangeInclusive<usize>>>::spec_view(tess, range, n) == Err::<(usize, usize, usize), TessViewError>(
            TessViewError::IncorrectViewWindow { capacity: tess.spec_vert_nb(), start: range@.start, nb: (range@.end - range@.start + 1) as usize },
        ),
        <Tess<B, V, I, W, S> as View<B, V, I, W, S, RangeInclusive<usize>>>::spec_view(tess, range, n) matches Ok(w) ==> w.2 == n && <Tess<B, V, I, W, S> as View<B, V, I, W, S, RangeInclusive<usize>>>::spec_view(
            tess,
            range,
            tess.spec_inst_nb(),
        ) == Ok::<(usize, usize, usize), TessViewError>((w.0, w.1, tess.spec_inst_nb())),
{
}

/// A view of the vertices from `start` with `n` instances starts at `start`, has the vertices
/// up to the end and `n` instances, and is the view of the range with only the instance count
/// changed.
pub proof fn law_view_range_from<B, V, I, W, S>(tess: &Tess<B, V, I, W, S>, from: RangeFrom<usize>, n: usize) where
    B: ?Sized + TessBackend<V, I, W, S>,
    V: TessVertexData<S>,
    I: TessIndex,
    W: TessVertexData<S>,
    S: ?Sized,
    requires
        from.start <= tess.spec_vert_nb(),
    ensures
        <Tess<B, V, I, W, S> as View<B, V, I, W, S, RangeFrom<usize>>>::spec_default_inst_nb(tess) == tess.spec_inst_nb(),
        from.start <= tess.spec_vert_nb() ==> <Tess<B, V, I, W, S> as View<B, V, I, W, S, RangeFrom<usize>>>::spec_view(tess, from, n) == Ok::<(usize, usize, usize), TessViewError>(
            (from.start, (tess.spec_vert_nb() - from.start) as usize, n),
        ),
        !(from.start <= tess.spec_vert_nb()) ==> <Tess<B, V, I, W, S> as View<B, V, I, W, S, RangeFrom<usize>>>::spec_view(tess, from, n) == Err::<(usize, usize, usize), TessViewError>(
            TessViewError::IncorrectViewWindow { capacity: tess.spec_vert_nb(), start: from.start, nb: (tess.spec_vert_nb() - from.start) as usize },
        ),
        <Tess<B, V, I, W, S> as View<B, V, I, W, S, RangeFrom<usize>>>::spec_view(tess, from, n) matches Ok(w) ==> w.2 == n && <Tess<B, V, I, W, S> as View<B, V, I, W, S, RangeFrom<usize>>>::spec_view(
            tess,
            from,
            tess.spec_inst_nb(),
        ) == Ok::<(usize, usize, usize), TessViewError>((w.0, w.1, tess.spec_inst_nb())),
{
}

/// A view of the vertices `..end` with `n` instances starts at `0`, has `end` vertices and
/// `n` instances when `end` lies in the tessellation, and is the view of the range with only the
/// instance count changed; a range past the end is refused.
pub proof fn law_view_range_to<B, V, I, W, S>(tess: &Tess<B, V, I, W, S>, to: RangeTo<usize>, n: usize) where
    B: ?Sized + TessBackend<V, I, W, S>,
    V: TessVertexData<S>,
    I: TessIndex,
    W: TessVertexData<S>,
    S: ?Sized,
    ensures
        <Tess<B, V, I, W, S> as View<B, V, I, W, S, RangeTo<usize>>>::spec_default_inst_nb(tess) == tess.spec_inst_nb(),
        to.end <= tess.spec_vert_nb() ==> <Tess<B, V, I, W, S> as View<B, V, I, W, S, RangeTo<usize>>>::spec_view(tess, to, n) == Ok::<(usize, usize, usize), TessViewError>(
            (0usize, to.end, n),
        ),
        !(to.end <= tess.spec_vert_nb()) ==> <Tess<B, V, I, W, S> as View<B, V, I, W, S, RangeTo<usize>>>::spec_view(tess, to, n) == Err::<(usize, usize, usize), TessViewError>(
            TessViewError::IncorrectViewWindow { capacity: tess.spec_vert_nb(), start: 0usize, nb: to.end },
        ),
        <Tess<B, V, I, W, S> as View<B, V, I, W, S, RangeTo<usize>>>::spec_view(tess, to, n) matches Ok(w) ==> w.2 == n && <Tess<B, V, I, W, S> as View<B, V, I, W, S, RangeTo<usize>>>::spec_view(
            tess,
            to,
            tess.spec_inst_nb(),
        ) == Ok::<(usize, usize, usize), TessViewError>((w.0, w.1, tess.spec_inst_nb())),
{
}

/// A view of the vertices `..=end` with `n` instances starts at `0`, has `end + 1` vertices
/// and `n` instances when `end` lies in the tessellation, and is the view of the range with only
/// the instance count changed; a range past the end is refused.
pub proof fn law_view_range_to_inclusive<B, V, I, W, S>(tess: &Tess<B, V, I, W, S>, to: RangeToInclusive<usize>, n: usize) where
    B: ?Sized + TessBackend<V, I, W, S>,
    V: TessVertexData<S>,
    I: TessIndex,
    W: TessVertexData<S>,
    S: ?Sized,
    requires
        to.end < usize::MAX,
    ensures
        <Tess<B, V, I, W, S> as View<B, V, I, W, S, RangeToInclusive<usize>>>::spec_default_inst_nb(tess) == tess.spec_inst_nb(),
        to.end < tess.spec_vert_nb() ==> <Tess<B, V, I, W, S> as View<B, V, I, W, S, RangeToInclusive<usize>>>::spec_view(tess, to, n) == Ok::<(usize, usize, usize), TessViewError>(
            (0usize, (to.end + 1) as usize, n),
        ),
        !(to.end < tess.spec_vert_nb()) ==> <Tess<B, V, I, W, S> as View<B, V, I, W, S, RangeToInclusive<usize>>>::spec_view(tess, to, n) == Err::<(usize, usize, usize), TessViewError>(
            TessViewError::IncorrectViewWindow { capacity: tess.spec_vert_nb(), start: 0usize, nb: (to.end + 1) as usize },
        ),
        <Tess<B, V, I, W, S> as View<B, V, I, W, S, RangeToInclusive<usize>>>::spec_view(tess, to, n) matches Ok(w) ==> w.2 == n && <Tess<B, V, I, W, S> as View<B, V, I, W, S, RangeToInclusive<usize>>>::spec_view(
            tess,
            to,
            tess.spec_inst_nb(),
        ) == Ok::<(usize, usize, usize), TessViewError>((w.0, w.1, tess.spec_inst_nb())),
{
}

/// A view of all the vertices with `n` instances starts at `0`, has all the vertices and `n`
/// instances, and is the view of the range with only the instance count changed.
pub proof fn law_view_range_full<B, V, I, W, S>(tess: &Tess<B, V, I, W, S>, full: RangeFull, n: usize) where
    B: ?Sized + TessBackend<V, I, W, S>,
    V: TessVertexData<S>,
    I: TessIndex,
    W: TessVertexData<S>,
    S: ?Sized,
    ensures
        <Tess<B, V, I, W, S> as View<B, V, I, W, S, RangeFull>>::spec_default_inst_nb(tess) == tess.spec_inst_nb(),
        true ==> <Tess<B, V, I, W, S> as View<B, V, I, W, S, RangeFull>>::spec_view(tess, full, n) == Ok::<(usize, usize, usize), TessViewError>(
            (0usize, tess.spec_vert_nb(), n),
        ),
        !(true) ==> <Tess<B, V, I, W, S> as View<B, V, I, W, S, RangeFull>>::spec_view(tess, full, n) == Err::<(usize, usize, usize), TessViewError>(
            TessViewError::IncorrectViewWindow { capacity: tess.spec_vert_nb(), start: 0usize, nb: tess.spec_vert_nb() },
        ),
        <Tess<B, V, I, W, S> as View<B, V, I, W, S, RangeFull>>::spec_view(tess, full, n) matches Ok(w) ==> w.2 == n && <Tess<B, V, I, W, S> as View<B, V, I, W, S, RangeFull>>::spec_view(
            tess,
            full,
            tess.spec_inst_nb(),
        ) == Ok::<(usize, usize, usize), TessViewError>((w.0, w.1, tess.spec_inst_nb())),
{
}

} // verus!
