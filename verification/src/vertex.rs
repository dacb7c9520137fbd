//! Vertex formats, associated types and functions.
//!
//! A vertex is a type representing a point. It’s common to find vertex positions, normals, colors
//! or even texture coordinates. Even though you’re free to use whichever type you want, you’re
//! limited to a range of types and dimensions. See [`VertexAttribType`] and [`VertexAttribDim`]
//! for further details.
use vstd::prelude::*;
use crate::text::{decimal, push_decimal};

verus! {

/// A type that can be used as a [`Vertex`] has to implement that trait – it must provide an
/// associated [`VertexDesc`] value via a function call. This associated value gives enough
/// information on the types being used as attributes to reify enough memory data to align and, size
/// and type buffers correctly.
///
/// Most vertex types implement it the same way: one attribute per field, in the order of the
/// fields.
pub trait Vertex {
    /// Number of attributes.
    const ATTR_COUNT: usize;

    /// The associated vertex format.
    fn vertex_desc() -> VertexDesc;
}

impl Vertex for () {
    const ATTR_COUNT: usize = 0;

    fn vertex_desc() -> (r: VertexDesc)
        ensures
            r@.len() == 0,
    {
        Vec::new()
    }
}

/// Rank of an attribute type inside a deinterleaved vertex type.
pub trait Deinterleave<T> {
    /// Rank of the type among the attribute types of the vertex type.
    const RANK: usize;
}

/// A [`VertexDesc`] is a list of [`VertexBufferDesc`]s.
pub type VertexDesc = Vec<VertexBufferDesc>;

/// A vertex attribute descriptor in a vertex buffer.
///
/// Such a description is used to state what vertex buffers are made of and how they should be
/// aligned / etc.
#[derive(Clone, Copy, Debug, PartialEq, Eq, Hash)]
pub struct VertexBufferDesc {
    /// Internal index of the attribute.
    ///
    /// That index is used as a mapping with vertex shaders to know how to fetch vertex attributes.
    pub index: usize,
    /// The name of the attribute.
    ///
    /// Such a name is used in vertex shaders to perform mapping.
    pub name: &'static str,
    /// Whether _vertex instancing_ should be used with that vertex attribute.
    pub instancing: VertexInstancing,
    /// Vertex attribute descriptor.
    pub attrib_desc: VertexAttribDesc,
}

impl VertexBufferDesc {
    /// Create a new [`VertexBufferDesc`].
    pub fn new<S>(sem: S, instancing: VertexInstancing, attrib_desc: VertexAttribDesc) -> (r: Self) where
        S: Semantics,
        ensures
            call_ensures(S::index, (&sem,), r.index),
            call_ensures(S::name, (&sem,), r.name),
            r.instancing == instancing,
            r.attrib_desc == attrib_desc,
    {
        let index = sem.index();
        let name = sem.name();
        VertexBufferDesc { index, name, instancing, attrib_desc }
    }

    /// The derived `Debug` rendering of the descriptor.
    pub open spec fn spec_debug_text(self) -> Seq<char> {
        "VertexBufferDesc { index: "@ + decimal(self.index as nat) + ", name: "@ + str_debug(
            self.name@,
        ) + ", instancing: "@ + self.instancing.spec_debug_text() + ", attrib_desc: "@
            + self.attrib_desc.spec_debug_text() + " }"@
    }

    /// The `Debug` rendering of the descriptor, as error messages print it.
    pub fn debug_text(&self) -> (r: String)
        ensures
            r@ == self.spec_debug_text(),
    {
        let mut s = String::from_str("VertexBufferDesc { index: ");
        push_decimal(&mut s, self.index);
        s.append(", name: ");
        let n = quoted(self.name);
        s.append(n.as_str());
        s.append(", instancing: ");
        let i = self.instancing.debug_text();
        s.append(i.as_str());
        s.append(", attrib_desc: ");
        let a = self.attrib_desc.debug_text();
        s.append(a.as_str());
        s.append(" }");
        s
    }
}

/// The `Debug` rendering of a string slice: the text in double quotes, with the characters that
/// need it escaped.
pub uninterp spec fn str_debug(s: Seq<char>) -> Seq<char>;

/// The `Debug` rendering of a string slice, computed by std's `impl Debug for str` (the text in
/// double quotes, with quotes, backslashes and non-printable characters escaped). The contract
/// names the rendering and says that it depends on the text alone; it does not spell out the
/// escaping rules.
#[verifier::external_body]
fn quoted(s: &str) -> (r: String)
    ensures
        r@ == str_debug(s@),
{
    format!("{:?}", s)
}

/// The `Debug` rendering of a list of descriptors: `[`, the descriptors separated by `", "`, and
/// `]`.
pub open spec fn spec_vertex_desc_debug_text(desc: Seq<VertexBufferDesc>) -> Seq<char> {
    "["@ + spec_joined_debug_text(desc) + "]"@
}

/// The `Debug` renderings of the descriptors, separated by `", "`.
pub open spec fn spec_joined_debug_text(desc: Seq<VertexBufferDesc>) -> Seq<char>
    decreases desc.len(),
{
    if desc.len() == 0 {
        Seq::empty()
    } else if desc.len() == 1 {
        desc[0].spec_debug_text()
    } else {
        spec_joined_debug_text(desc.drop_last()) + ", "@ + desc.last().spec_debug_text()
    }
}

/// The `Debug` rendering of a list of descriptors, as error messages print it.
pub fn vertex_desc_debug_text(desc: &VertexDesc) -> (r: String)
    ensures
        r@ == spec_vertex_desc_debug_text(desc@),
{
    let mut s = String::from_str("[");
    let n = desc.len();
    let mut i: usize = 0;
    while i < n
        invariant
            n == desc@.len(),
            i <= n,
            s@ == "["@ + spec_joined_debug_text(desc@.subrange(0, i as int)),
        decreases n - i,
    {
        if i > 0 {
            s.append(", ");
        }
        let t = desc[i].debug_text();
        s.append(t.as_str());
        proof {
            let next = desc@.subrange(0, i + 1);
            assert(next.drop_last() =~= desc@.subrange(0, i as int));
            assert(next.last() == desc@[i as int]);
        }
        i = i + 1;
    }
    assert(desc@.subrange(0, n as int) =~= desc@);
    s.append("]");
    s
}

/// Should vertex instancing be used for a vertex attribute?
///
/// Enabling this is done per attribute but if you enable it for a single attribute of a struct, it
/// should be enabled for all others (interleaved vertex instancing is not supported).
#[derive(Clone, Copy, Debug, PartialEq, Eq, Structural, Hash)]
pub enum VertexInstancing {
    /// Use vertex instancing.
    On,
    /// Disable vertex instancing.
    Off,
}

impl VertexInstancing {
    /// The derived `Debug` rendering.
    pub open spec fn spec_debug_text(self) -> Seq<char> {
        match self {
            VertexInstancing::On => "On"@,
            VertexInstancing::Off => "Off"@,
        }
    }

    /// The `Debug` rendering.
    pub fn debug_text(&self) -> (r: String)
        ensures
            r@ == self.spec_debug_text(),
    {
        match self {
            VertexInstancing::On => String::from_str("On"),
            VertexInstancing::Off => String::from_str("Off"),
        }
    }
}

/// Vertex attribute format.
///
/// Vertex attributes (such as positions, colors, texture UVs, normals, etc.) have all a specific
/// format that must be passed to the GPU. This type gathers information about a single vertex
/// attribute and is completly agnostic of the rest of the attributes used to form a vertex.
///
/// A type is associated with a single value of type [`VertexAttribDesc`] via the [`VertexAttrib`]
/// trait. If such an implementor exists for a type, it means that this type can be used as a vertex
/// attribute.
#[derive(Clone, Copy, Debug, PartialEq, Eq, Structural, Hash)]
pub struct VertexAttribDesc {
    /// Type of the attribute. See [`VertexAttribType`] for further details.
    pub ty: VertexAttribType,
    /// Dimension of the attribute. It should be in 1–4. See [`VertexAttribDim`] for further details.
    pub dim: VertexAttribDim,
    /// Size in bytes that a single element of the attribute takes. That is, if your attribute has
    /// a dimension set to 2, then the unit size should be the size of a single element (not two).
    pub unit_size: usize,
    /// Alignment of the attribute. The best advice is to respect what Rust does, so it’s highly
    /// recommended to use `::std::mem::align_of` to let it does the job for you.
    pub align: usize,
}

impl VertexAttribDesc {
    /// Normalize a vertex attribute format’s type.
    pub fn normalize(self) -> (r: Self)
        ensures
            r == (VertexAttribDesc { ty: self.ty.spec_normalize(), ..self }),
    {
        VertexAttribDesc { ty: self.ty.normalize(), ..self }
    }

    /// The derived `Debug` rendering.
    pub open spec fn spec_debug_text(self) -> Seq<char> {
        "VertexAttribDesc { ty: "@ + self.ty.spec_debug_text() + ", dim: "@
            + self.dim.spec_debug_text() + ", unit_size: "@ + decimal(self.unit_size as nat)
            + ", align: "@ + decimal(self.align as nat) + " }"@
    }

    /// The `Debug` rendering.
    pub fn debug_text(&self) -> (r: String)
        ensures
            r@ == self.spec_debug_text(),
    {
        let mut s = String::from_str("VertexAttribDesc { ty: ");
        let t = self.ty.debug_text();
        s.append(t.as_str());
        s.append(", dim: ");
        let d = self.dim.debug_text();
        s.append(d.as_str());
        s.append(", unit_size: ");
        push_decimal(&mut s, self.unit_size);
        s.append(", align: ");
        push_decimal(&mut s, self.align);
        s.append(" }");
        s
    }
}

/// Possible type of vertex attributes.
#[derive(Clone, Copy, Debug, PartialEq, Eq, Structural, Hash)]
pub enum VertexAttribType {
    /// An integral type.
    ///
    /// Typically, `i32` is integral but not `u32`.
    Integral(Normalized),
    /// An unsigned integral type.
    ///
    /// Typically, `u32` is unsigned but not `i32`.
    Unsigned(Normalized),
    /// A floating point integral type.
    Floating,
    /// A boolean integral type.
    Boolean,
}

impl VertexAttribType {
    /// The normalized type: integral and unsigned types become normalized, the others stay.
    pub open spec fn spec_normalize(self) -> Self {
        match self {
            VertexAttribType::Integral(_) => VertexAttribType::Integral(Normalized::Yes),
            VertexAttribType::Unsigned(_) => VertexAttribType::Unsigned(Normalized::Yes),
            _ => self,
        }
    }

    /// Normalize a vertex attribute type if it’s integral.
    ///
    /// Return the normalized integer vertex attribute type if non-normalized. Otherwise, return the
    /// vertex attribute type directly.
    pub fn normalize(self) -> (r: Self)
        ensures
            r == self.spec_normalize(),
    {
        match self {
            VertexAttribType::Integral(Normalized::No) => VertexAttribType::Integral(
                Normalized::Yes,
            ),
            VertexAttribType::Unsigned(Normalized::No) => VertexAttribType::Unsigned(
                Normalized::Yes,
            ),
            _ => self,
        }
    }

    /// The derived `Debug` rendering.
    pub open spec fn spec_debug_text(self) -> Seq<char> {
        match self {
            VertexAttribType::Integral(n) => "Integral("@ + n.spec_debug_text() + ")"@,
            VertexAttribType::Unsigned(n) => "Unsigned("@ + n.spec_debug_text() + ")"@,
            VertexAttribType::Floating => "Floating"@,
            VertexAttribType::Boolean => "Boolean"@,
        }
    }

    /// The `Debug` rendering.
    pub fn debug_text(&self) -> (r: String)
        ensures
            r@ == self.spec_debug_text(),
    {
        match self {
            VertexAttribType::Integral(n) => {
                let mut s = String::from_str("Integral(");
                let t = n.debug_text();
                s.append(t.as_str());
                s.append(")");
                s
            },
            VertexAttribType::Unsigned(n) => {
                let mut s = String::from_str("Unsigned(");
                let t = n.debug_text();
                s.append(t.as_str());
                s.append(")");
                s
            },
            VertexAttribType::Floating => String::from_str("Floating"),
            VertexAttribType::Boolean => String::from_str("Boolean"),
        }
    }
}

/// Normalizing is idempotent: a normalized type is left as it is.
pub proof fn lemma_normalize_idempotent(ty: VertexAttribType)
    ensures
        ty.spec_normalize().spec_normalize() == ty.spec_normalize(),
{
}

/// Whether an integral vertex type should be normalized when fetched from a shader program.
///
/// The default implementation is not to normalize anything. You have to explicitly ask for
/// normalized integers (that will, then, be accessed as floating vertex attributes).
#[derive(Clone, Copy, Debug, PartialEq, Eq, Structural, Hash)]
pub enum Normalized {
    /// Normalize integral values and expose them as floating-point values.
    Yes,
    /// Do not perform any normalization and hence leave integral values as-is.
    No,
}

impl Normalized {
    /// The derived `Debug` rendering.
    pub open spec fn spec_debug_text(self) -> Seq<char> {
        match self {
            Normalized::Yes => "Yes"@,
            Normalized::No => "No"@,
        }
    }

    /// The `Debug` rendering.
    pub fn debug_text(&self) -> (r: String)
        ensures
            r@ == self.spec_debug_text(),
    {
        match self {
            Normalized::Yes => String::from_str("Yes"),
            Normalized::No => String::from_str("No"),
        }
    }
}

/// Possible dimension of vertex attributes.
#[derive(Clone, Copy, Debug, PartialEq, Eq, Structural, Hash)]
pub enum VertexAttribDim {
    /// 1D.
    Dim1,
    /// 2D.
    Dim2,
    /// 3D.
    Dim3,
    /// 4D.
    Dim4,
}

impl VertexAttribDim {
    /// The derived `Debug` rendering.
    pub open spec fn spec_debug_text(self) -> Seq<char> {
        match self {
            VertexAttribDim::Dim1 => "Dim1"@,
            VertexAttribDim::Dim2 => "Dim2"@,
            VertexAttribDim::Dim3 => "Dim3"@,
            VertexAttribDim::Dim4 => "Dim4"@,
        }
    }

    /// The `Debug` rendering.
    pub fn debug_text(&self) -> (r: String)
        ensures
            r@ == self.spec_debug_text(),
    {
        match self {
            VertexAttribDim::Dim1 => String::from_str("Dim1"),
            VertexAttribDim::Dim2 => String::from_str("Dim2"),
            VertexAttribDim::Dim3 => String::from_str("Dim3"),
            VertexAttribDim::Dim4 => String::from_str("Dim4"),
        }
    }
}

/// Class of vertex attributes.
///
/// A vertex attribute type is always associated with a single constant of type [`VertexAttribDesc`],
/// giving GPUs hints about how to treat them.
pub trait VertexAttrib {
    /// The vertex attribute descriptor of the type.
    spec fn spec_vertex_attrib_desc() -> VertexAttribDesc;

    /// The vertex attribute descriptor.
    fn vertex_attrib_desc() -> (r: VertexAttribDesc)
        ensures
            r == Self::spec_vertex_attrib_desc(),
    ;
}

/// Vertex attribute semantics.
///
/// Vertex attribute semantics are a mean to make shaders and vertex buffers talk to each other
/// correctly. This is important for several reasons:
///
///   - The memory layout of your vertex buffers might be very different from an ideal case or even
///     the common case. Shaders don’t have any way to know where to pick vertex attributes from, so
///     a mapping is needed.
///   - Sometimes, a shader just need a few information from the vertex attributes. You then want to
///     be able to authorize _“gaps”_ in the semantics so that shaders can be used for several
///     varieties of vertex formats.
///
/// Vertex attribute semantics are any type that can implement this trait. The idea is that
/// semantics must be unique. The vertex position should have an index that is never used anywhere
/// else in the vertex buffer. Because of the second point above, it’s also highly recommended
/// (even though valid not to) to stick to the same index for a given semantics when you have
/// several tessellations – that allows better composition with shaders. Basically, the best advice
/// to follow: define your semantics once, and keep to them.
///
/// > Note: an `enum` with one variant per vertex attribute is the usual way to implement this
/// > trait.
pub trait Semantics: Sized {
    /// Retrieve the semantics index of this semantics.
    fn index(&self) -> usize;

    /// Get the name of this semantics.
    fn name(&self) -> &'static str;

    /// Get all available semantics.
    fn semantics_set() -> Vec<SemanticsDesc>;
}

impl Semantics for () {
    fn index(&self) -> (r: usize)
        ensures
            r == 0,
    {
        0
    }

    fn name(&self) -> (r: &'static str)
        ensures
            r@ == ""@,
    {
        ""
    }

    fn semantics_set() -> (r: Vec<SemanticsDesc>)
        ensures
            r@.len() == 0,
    {
        Vec::new()
    }
}

/// Semantics description.
#[derive(Clone, Debug, PartialEq, Eq, Hash)]
pub struct SemanticsDesc {
    /// Semantics index.
    pub index: usize,
    /// Name of the semantics (used in shaders).
    pub name: String,
}

/// Class of types that have an associated value which type implements [`Semantics`], defining
/// vertex legit attributes.
///
/// Vertex attribute types can be associated with only one semantics.
pub trait HasSemantics {
    /// Type of the semantics.
    ///
    /// See the [`Semantics`] trait for further information.
    type Sem: Semantics;

    /// The aforementioned vertex semantics for the attribute type.
    const SEMANTICS: Self::Sem;
}

/// The size, in bytes, of a value of type `T`.
pub fn size_of<T>() -> (r: usize)
    ensures
        r as nat == vstd::layout::size_of::<T>(),
{
    core::mem::size_of::<T>()
}

/// The alignment, in bytes, of a value of type `T`.
pub fn align_of<T>() -> (r: usize)
    ensures
        r as nat == vstd::layout::align_of::<T>(),
{
    core::mem::align_of::<T>()
}

impl VertexAttrib for i8 {
    open spec fn spec_vertex_attrib_desc() -> VertexAttribDesc {
        VertexAttribDesc {
            ty: VertexAttribType::Integral(Normalized::No),
            dim: VertexAttribDim::Dim1,
            unit_size: 1,
            align: 1,
        }
    }

    fn vertex_attrib_desc() -> (r: VertexAttribDesc) {
        VertexAttribDesc {
            ty: VertexAttribType::Integral(Normalized::No),
            dim: VertexAttribDim::Dim1,
            unit_size: 1,
            align: 1,
        }
    }
}

impl VertexAttrib for [i8; 1] {
    open spec fn spec_vertex_attrib_desc() -> VertexAttribDesc {
        VertexAttribDesc {
            ty: VertexAttribType::Integral(Normalized::No),
            dim: VertexAttribDim::Dim1,
            unit_size: 1,
            align: 1,
        }
    }

    fn vertex_attrib_desc() -> (r: VertexAttribDesc) {
        VertexAttribDesc {
            ty: VertexAttribType::Integral(Normalized::No),
            dim: VertexAttribDim::Dim1,
            unit_size: 1,
            align: 1,
        }
    }
}

impl VertexAttrib for [i8; 2] {
    open spec fn spec_vertex_attrib_desc() -> VertexAttribDesc {
        VertexAttribDesc {
            ty: VertexAttribType::Integral(Normalized::No),
            dim: VertexAttribDim::Dim2,
            unit_size: 1,
            align: 1,
        }
    }

    fn vertex_attrib_desc() -> (r: VertexAttribDesc) {
        VertexAttribDesc {
            ty: VertexAttribType::Integral(Normalized::No),
            dim: VertexAttribDim::Dim2,
            unit_size: 1,
            align: 1,
        }
    }
}

impl VertexAttrib for [i8; 3] {
    open spec fn spec_vertex_attrib_desc() -> VertexAttribDesc {
        VertexAttribDesc {
            ty: VertexAttribType::Integral(Normalized::No),
            dim: VertexAttribDim::Dim3,
            unit_size: 1,
            align: 1,
        }
    }

    fn vertex_attrib_desc() -> (r: VertexAttribDesc) {
        VertexAttribDesc {
            ty: VertexAttribType::Integral(Normalized::No),
            dim: VertexAttribDim::Dim3,
            unit_size: 1,
            align: 1,
        }
    }
}

impl VertexAttrib for [i8; 4] {
    open spec fn spec_vertex_attrib_desc() -> VertexAttribDesc {
        VertexAttribDesc {
            ty: VertexAttribType::Integral(Normalized::No),
            dim: VertexAttribDim::Dim4,
            unit_size: 1,
            align: 1,
        }
    }

    fn vertex_attrib_desc() -> (r: VertexAttribDesc) {
        VertexAttribDesc {
            ty: VertexAttribType::Integral(Normalized::No),
            dim: VertexAttribDim::Dim4,
            unit_size: 1,
            align: 1,
        }
    }
}

impl VertexAttrib for i16 {
    open spec fn spec_vertex_attrib_desc() -> VertexAttribDesc {
        VertexAttribDesc {
            ty: VertexAttribType::Integral(Normalized::No),
            dim: VertexAttribDim::Dim1,
            unit_size: 2,
            align: 2,
        }
    }

    fn vertex_attrib_desc() -> (r: VertexAttribDesc) {
        VertexAttribDesc {
            ty: VertexAttribType::Integral(Normalized::No),
            dim: VertexAttribDim::Dim1,
            unit_size: 2,
            align: 2,
        }
    }
}

impl VertexAttrib for [i16; 1] {
    open spec fn spec_vertex_attrib_desc() -> VertexAttribDesc {
        VertexAttribDesc {
            ty: VertexAttribType::Integral(Normalized::No),
            dim: VertexAttribDim::Dim1,
            unit_size: 2,
            align: 2,
        }
    }

    fn vertex_attrib_desc() -> (r: VertexAttribDesc) {
        VertexAttribDesc {
            ty: VertexAttribType::Integral(Normalized::No),
            dim: VertexAttribDim::Dim1,
            unit_size: 2,
            align: 2,
        }
    }
}

impl VertexAttrib for [i16; 2] {
    open spec fn spec_vertex_attrib_desc() -> VertexAttribDesc {
        VertexAttribDesc {
            ty: VertexAttribType::Integral(Normalized::No),
            dim: VertexAttribDim::Dim2,
            unit_size: 2,
            align: 2,
        }
    }

    fn vertex_attrib_desc() -> (r: VertexAttribDesc) {
        VertexAttribDesc {
            ty: VertexAttribType::Integral(Normalized::No),
            dim: VertexAttribDim::Dim2,
            unit_size: 2,
            align: 2,
        }
    }
}

impl VertexAttrib for [i16; 3] {
    open spec fn spec_vertex_attrib_desc() -> VertexAttribDesc {
        VertexAttribDesc {
            ty: VertexAttribType::Integral(Normalized::No),
            dim: VertexAttribDim::Dim3,
            unit_size: 2,
            align: 2,
        }
    }

    fn vertex_attrib_desc() -> (r: VertexAttribDesc) {
        VertexAttribDesc {
            ty: VertexAttribType::Integral(Normalized::No),
            dim: VertexAttribDim::Dim3,
            unit_size: 2,
            align: 2,
        }
    }
}

impl VertexAttrib for [i16; 4] {
    open spec fn spec_vertex_attrib_desc() -> VertexAttribDesc {
        VertexAttribDesc {
            ty: VertexAttribType::Integral(Normalized::No),
            dim: VertexAttribDim::Dim4,
            unit_size: 2,
            align: 2,
        }
    }

    fn vertex_attrib_desc() -> (r: VertexAttribDesc) {
        VertexAttribDesc {
            ty: VertexAttribType::Integral(Normalized::No),
            dim: VertexAttribDim::Dim4,
            unit_size: 2,
            align: 2,
        }
    }
}

impl VertexAttrib for i32 {
    open spec fn spec_vertex_attrib_desc() -> VertexAttribDesc {
        VertexAttribDesc {
            ty: VertexAttribType::Integral(Normalized::No),
            dim: VertexAttribDim::Dim1,
            unit_size: 4,
            align: 4,
        }
    }

    fn vertex_attrib_desc() -> (r: VertexAttribDesc) {
        VertexAttribDesc {
            ty: VertexAttribType::Integral(Normalized::No),
            dim: VertexAttribDim::Dim1,
            unit_size: 4,
            align: 4,
        }
    }
}

impl VertexAttrib for [i32; 1] {
    open spec fn spec_vertex_attrib_desc() -> VertexAttribDesc {
        VertexAttribDesc {
            ty: VertexAttribType::Integral(Normalized::No),
            dim: VertexAttribDim::Dim1,
            unit_size: 4,
            align: 4,
        }
    }

    fn vertex_attrib_desc() -> (r: VertexAttribDesc) {
        VertexAttribDesc {
            ty: VertexAttribType::Integral(Normalized::No),
            dim: VertexAttribDim::Dim1,
            unit_size: 4,
            align: 4,
        }
    }
}

impl VertexAttrib for [i32; 2] {
    open spec fn spec_vertex_attrib_desc() -> VertexAttribDesc {
        VertexAttribDesc {
            ty: VertexAttribType::Integral(Normalized::No),
            dim: VertexAttribDim::Dim2,
            unit_size: 4,
            align: 4,
        }
    }

    fn vertex_attrib_desc() -> (r: VertexAttribDesc) {
        VertexAttribDesc {
            ty: VertexAttribType::Integral(Normalized::No),
            dim: VertexAttribDim::Dim2,
            unit_size: 4,
            align: 4,
        }
    }
}

impl VertexAttrib for [i32; 3] {
    open spec fn spec_vertex_attrib_desc() -> VertexAttribDesc {
        VertexAttribDesc {
            ty: VertexAttribType::Integral(Normalized::No),
            dim: VertexAttribDim::Dim3,
            unit_size: 4,
            align: 4,
        }
    }

    fn vertex_attrib_desc() -> (r: VertexAttribDesc) {
        VertexAttribDesc {
            ty: VertexAttribType::Integral(Normalized::No),
            dim: VertexAttribDim::Dim3,
            unit_size: 4,
            align: 4,
        }
    }
}

impl VertexAttrib for [i32; 4] {
    open spec fn spec_vertex_attrib_desc() -> VertexAttribDesc {
        VertexAttribDesc {
            ty: VertexAttribType::Integral(Normalized::No),
            dim: VertexAttribDim::Dim4,
            unit_size: 4,
            align: 4,
        }
    }

    fn vertex_attrib_desc() -> (r: VertexAttribDesc) {
        VertexAttribDesc {
            ty: VertexAttribType::Integral(Normalized::No),
            dim: VertexAttribDim::Dim4,
            unit_size: 4,
            align: 4,
        }
    }
}

impl VertexAttrib for u8 {
    open spec fn spec_vertex_attrib_desc() -> VertexAttribDesc {
        VertexAttribDesc {
            ty: VertexAttribType::Unsigned(Normalized::No),
            dim: VertexAttribDim::Dim1,
            unit_size: 1,
            align: 1,
        }
    }

    fn vertex_attrib_desc() -> (r: VertexAttribDesc) {
        VertexAttribDesc {
            ty: VertexAttribType::Unsigned(Normalized::No),
            dim: VertexAttribDim::Dim1,
            unit_size: 1,
            align: 1,
        }
    }
}

impl VertexAttrib for [u8; 1] {
    open spec fn spec_vertex_attrib_desc() -> VertexAttribDesc {
        VertexAttribDesc {
            ty: VertexAttribType::Unsigned(Normalized::No),
            dim: VertexAttribDim::Dim1,
            unit_size: 1,
            align: 1,
        }
    }

    fn vertex_attrib_desc() -> (r: VertexAttribDesc) {
        VertexAttribDesc {
            ty: VertexAttribType::Unsigned(Normalized::No),
            dim: VertexAttribDim::Dim1,
            unit_size: 1,
            align: 1,
        }
    }
}

impl VertexAttrib for [u8; 2] {
    open spec fn spec_vertex_attrib_desc() -> VertexAttribDesc {
        VertexAttribDesc {
            ty: VertexAttribType::Unsigned(Normalized::No),
            dim: VertexAttribDim::Dim2,
            unit_size: 1,
            align: 1,
        }
    }

    fn vertex_attrib_desc() -> (r: VertexAttribDesc) {
        VertexAttribDesc {
            ty: VertexAttribType::Unsigned(Normalized::No),
            dim: VertexAttribDim::Dim2,
            unit_size: 1,
            align: 1,
        }
    }
}

impl VertexAttrib for [u8; 3] {
    open spec fn spec_vertex_attrib_desc() -> VertexAttribDesc {
        VertexAttribDesc {
            ty: VertexAttribType::Unsigned(Normalized::No),
            dim: VertexAttribDim::Dim3,
            unit_size: 1,
            align: 1,
        }
    }

    fn vertex_attrib_desc() -> (r: VertexAttribDesc) {
        VertexAttribDesc {
            ty: VertexAttribType::Unsigned(Normalized::No),
            dim: VertexAttribDim::Dim3,
            unit_size: 1,
            align: 1,
        }
    }
}

impl VertexAttrib for [u8; 4] {
    open spec fn spec_vertex_attrib_desc() -> VertexAttribDesc {
        VertexAttribDesc {
            ty: VertexAttribType::Unsigned(Normalized::No),
            dim: VertexAttribDim::Dim4,
            unit_size: 1,
            align: 1,
        }
    }

    fn vertex_attrib_desc() -> (r: VertexAttribDesc) {
        VertexAttribDesc {
            ty: VertexAttribType::Unsigned(Normalized::No),
            dim: VertexAttribDim::Dim4,
            unit_size: 1,
            align: 1,
        }
    }
}

impl VertexAttrib for u16 {
    open spec fn spec_vertex_attrib_desc() -> VertexAttribDesc {
        VertexAttribDesc {
            ty: VertexAttribType::Unsigned(Normalized::No),
            dim: VertexAttribDim::Dim1,
            unit_size: 2,
            align: 2,
        }
    }

    fn vertex_attrib_desc() -> (r: VertexAttribDesc) {
        VertexAttribDesc {
            ty: VertexAttribType::Unsigned(Normalized::No),
            dim: VertexAttribDim::Dim1,
            unit_size: 2,
            align: 2,
        }
    }
}

impl VertexAttrib for [u16; 1] {
    open spec fn spec_vertex_attrib_desc() -> VertexAttribDesc {
        VertexAttribDesc {
            ty: VertexAttribType::Unsigned(Normalized::No),
            dim: VertexAttribDim::Dim1,
            unit_size: 2,
            align: 2,
        }
    }

    fn vertex_attrib_desc() -> (r: VertexAttribDesc) {
        VertexAttribDesc {
            ty: VertexAttribType::Unsigned(Normalized::No),
            dim: VertexAttribDim::Dim1,
            unit_size: 2,
            align: 2,
        }
    }
}

impl VertexAttrib for [u16; 2] {
    open spec fn spec_vertex_attrib_desc() -> VertexAttribDesc {
        VertexAttribDesc {
            ty: VertexAttribType::Unsigned(Normalized::No),
            dim: VertexAttribDim::Dim2,
            unit_size: 2,
            align: 2,
        }
    }

    fn vertex_attrib_desc() -> (r: VertexAttribDesc) {
        VertexAttribDesc {
            ty: VertexAttribType::Unsigned(Normalized::No),
            dim: VertexAttribDim::Dim2,
            unit_size: 2,
            align: 2,
        }
    }
}

impl VertexAttrib for [u16; 3] {
    open spec fn spec_vertex_attrib_desc() -> VertexAttribDesc {
        VertexAttribDesc {
            ty: VertexAttribType::Unsigned(Normalized::No),
            dim: VertexAttribDim::Dim3,
            unit_size: 2,
            align: 2,
        }
    }

    fn vertex_attrib_desc() -> (r: VertexAttribDesc) {
        VertexAttribDesc {
            ty: VertexAttribType::Unsigned(Normalized::No),
            dim: VertexAttribDim::Dim3,
            unit_size: 2,
            align: 2,
        }
    }
}

impl VertexAttrib for [u16; 4] {
    open spec fn spec_vertex_attrib_desc() -> VertexAttribDesc {
        VertexAttribDesc {
            ty: VertexAttribType::Unsigned(Normalized::No),
            dim: VertexAttribDim::Dim4,
            unit_size: 2,
            align: 2,
        }
    }

    fn vertex_attrib_desc() -> (r: VertexAttribDesc) {
        VertexAttribDesc {
            ty: VertexAttribType::Unsigned(Normalized::No),
            dim: VertexAttribDim::Dim4,
            unit_size: 2,
            align: 2,
        }
    }
}

impl VertexAttrib for u32 {
    open spec fn spec_vertex_attrib_desc() -> VertexAttribDesc {
        VertexAttribDesc {
            ty: VertexAttribType::Unsigned(Normalized::No),
            dim: VertexAttribDim::Dim1,
            unit_size: 4,
            align: 4,
        }
    }

    fn vertex_attrib_desc() -> (r: VertexAttribDesc) {
        VertexAttribDesc {
            ty: VertexAttribType::Unsigned(Normalized::No),
            dim: VertexAttribDim::Dim1,
            unit_size: 4,
            align: 4,
        }
    }
}

impl VertexAttrib for [u32; 1] {
    open spec fn spec_vertex_attrib_desc() -> VertexAttribDesc {
        VertexAttribDesc {
            ty: VertexAttribType::Unsigned(Normalized::No),
            dim: VertexAttribDim::Dim1,
            unit_size: 4,
            align: 4,
        }
    }

    fn vertex_attrib_desc() -> (r: VertexAttribDesc) {
        VertexAttribDesc {
            ty: VertexAttribType::Unsigned(Normalized::No),
            dim: VertexAttribDim::Dim1,
            unit_size: 4,
            align: 4,
        }
    }
}

impl VertexAttrib for [u32; 2] {
    open spec fn spec_vertex_attrib_desc() -> VertexAttribDesc {
        VertexAttribDesc {
            ty: VertexAttribType::Unsigned(Normalized::No),
            dim: VertexAttribDim::Dim2,
            unit_size: 4,
            align: 4,
        }
    }

    fn vertex_attrib_desc() -> (r: VertexAttribDesc) {
        VertexAttribDesc {
            ty: VertexAttribType::Unsigned(Normalized::No),
            dim: VertexAttribDim::Dim2,
            unit_size: 4,
            align: 4,
        }
    }
}

impl VertexAttrib for [u32; 3] {
    open spec fn spec_vertex_attrib_desc() -> VertexAttribDesc {
        VertexAttribDesc {
            ty: VertexAttribType::Unsigned(Normalized::No),
            dim: VertexAttribDim::Dim3,
            unit_size: 4,
            align: 4,
        }
    }

    fn vertex_attrib_desc() -> (r: VertexAttribDesc) {
        VertexAttribDesc {
            ty: VertexAttribType::Unsigned(Normalized::No),
            dim: VertexAttribDim::Dim3,
            unit_size: 4,
            align: 4,
        }
    }
}

impl VertexAttrib for [u32; 4] {
    open spec fn spec_vertex_attrib_desc() -> VertexAttribDesc {
        VertexAttribDesc {
            ty: VertexAttribType::Unsigned(Normalized::No),
            dim: VertexAttribDim::Dim4,
            unit_size: 4,
            align: 4,
        }
    }

    fn vertex_attrib_desc() -> (r: VertexAttribDesc) {
        VertexAttribDesc {
            ty: VertexAttribType::Unsigned(Normalized::No),
            dim: VertexAttribDim::Dim4,
            unit_size: 4,
            align: 4,
        }
    }
}

impl VertexAttrib for bool {
    open spec fn spec_vertex_attrib_desc() -> VertexAttribDesc {
        VertexAttribDesc {
            ty: VertexAttribType::Boolean,
            dim: VertexAttribDim::Dim1,
            unit_size: 1,
            align: 1,
        }
    }

    fn vertex_attrib_desc() -> (r: VertexAttribDesc) {
        VertexAttribDesc {
            ty: VertexAttribType::Boolean,
            dim: VertexAttribDim::Dim1,
            unit_size: 1,
            align: 1,
        }
    }
}

impl VertexAttrib for [bool; 1] {
    open spec fn spec_vertex_attrib_desc() -> VertexAttribDesc {
        VertexAttribDesc {
            ty: VertexAttribType::Boolean,
            dim: VertexAttribDim::Dim1,
            unit_size: 1,
            align: 1,
        }
    }

    fn vertex_attrib_desc() -> (r: VertexAttribDesc) {
        VertexAttribDesc {
            ty: VertexAttribType::Boolean,
            dim: VertexAttribDim::Dim1,
            unit_size: 1,
            align: 1,
        }
    }
}

impl VertexAttrib for [bool; 2] {
    open spec fn spec_vertex_attrib_desc() -> VertexAttribDesc {
        VertexAttribDesc {
            ty: VertexAttribType::Boolean,
            dim: VertexAttribDim::Dim2,
            unit_size: 1,
            align: 1,
        }
    }

    fn vertex_attrib_desc() -> (r: VertexAttribDesc) {
        VertexAttribDesc {
            ty: VertexAttribType::Boolean,
            dim: VertexAttribDim::Dim2,
            unit_size: 1,
            align: 1,
        }
    }
}

impl VertexAttrib for [bool; 3] {
    open spec fn spec_vertex_attrib_desc() -> VertexAttribDesc {
        VertexAttribDesc {
            ty: VertexAttribType::Boolean,
            dim: VertexAttribDim::Dim3,
            unit_size: 1,
            align: 1,
        }
    }

    fn vertex_attrib_desc() -> (r: VertexAttribDesc) {
        VertexAttribDesc {
            ty: VertexAttribType::Boolean,
            dim: VertexAttribDim::Dim3,
            unit_size: 1,
            align: 1,
        }
    }
}

impl VertexAttrib for [bool; 4] {
    open spec fn spec_vertex_attrib_desc() -> VertexAttribDesc {
        VertexAttribDesc {
            ty: VertexAttribType::Boolean,
            dim: VertexAttribDim::Dim4,
            unit_size: 1,
            align: 1,
        }
    }

    fn vertex_attrib_desc() -> (r: VertexAttribDesc) {
        VertexAttribDesc {
            ty: VertexAttribType::Boolean,
            dim: VertexAttribDim::Dim4,
            unit_size: 1,
            align: 1,
        }
    }
}

/// The unit size of the vertex attribute types that the crate provides is the size of their
/// element type (for arrays, of one array item).
pub proof fn lemma_unit_size_is_element_size()
    ensures
        <i8 as VertexAttrib>::spec_vertex_attrib_desc().unit_size == vstd::layout::size_of::<i8>(),
        <[i8; 1] as VertexAttrib>::spec_vertex_attrib_desc().unit_size == vstd::layout::size_of::<i8>(),
        <[i8; 2] as VertexAttrib>::spec_vertex_attrib_desc().unit_size == vstd::layout::size_of::<i8>(),
        <[i8; 3] as VertexAttrib>::spec_vertex_attrib_desc().unit_size == vstd::layout::size_of::<i8>(),
        <[i8; 4] as VertexAttrib>::spec_vertex_attrib_desc().unit_size == vstd::layout::size_of::<i8>(),
        <i16 as VertexAttrib>::spec_vertex_attrib_desc().unit_size == vstd::layout::size_of::<i16>(),
        <[i16; 1] as VertexAttrib>::spec_vertex_attrib_desc().unit_size == vstd::layout::size_of::<i16>(),
        <[i16; 2] as VertexAttrib>::spec_vertex_attrib_desc().unit_size == vstd::layout::size_of::<i16>(),
        <[i16; 3] as VertexAttrib>::spec_vertex_attrib_desc().unit_size == vstd::layout::size_of::<i16>(),
        <[i16; 4] as VertexAttrib>::spec_vertex_attrib_desc().unit_size == vstd::layout::size_of::<i16>(),
        <i32 as VertexAttrib>::spec_vertex_attrib_desc().unit_size == vstd::layout::size_of::<i32>(),
        <[i32; 1] as VertexAttrib>::spec_vertex_attrib_desc().unit_size == vstd::layout::size_of::<i32>(),
        <[i32; 2] as VertexAttrib>::spec_vertex_attrib_desc().unit_size == vstd::layout::size_of::<i32>(),
        <[i32; 3] as VertexAttrib>::spec_vertex_attrib_desc().unit_size == vstd::layout::size_of::<i32>(),
        <[i32; 4] as VertexAttrib>::spec_vertex_attrib_desc().unit_size == vstd::layout::size_of::<i32>(),
        <u8 as VertexAttrib>::spec_vertex_attrib_desc().unit_size == vstd::layout::size_of::<u8>(),
        <[u8; 1] as VertexAttrib>::spec_vertex_attrib_desc().unit_size == vstd::layout::size_of::<u8>(),
        <[u8; 2] as VertexAttrib>::spec_vertex_attrib_desc().unit_size == vstd::layout::size_of::<u8>(),
        <[u8; 3] as VertexAttrib>::spec_vertex_attrib_desc().unit_size == vstd::layout::size_of::<u8>(),
        <[u8; 4] as VertexAttrib>::spec_vertex_attrib_desc().unit_size == vstd::layout::size_of::<u8>(),
        <u16 as VertexAttrib>::spec_vertex_attrib_desc().unit_size == vstd::layout::size_of::<u16>(),
        <[u16; 1] as VertexAttrib>::spec_vertex_attrib_desc().unit_size == vstd::layout::size_of::<u16>(),
        <[u16; 2] as VertexAttrib>::spec_vertex_attrib_desc().unit_size == vstd::layout::size_of::<u16>(),
        <[u16; 3] as VertexAttrib>::spec_vertex_attrib_desc().unit_size == vstd::layout::size_of::<u16>(),
        <[u16; 4] as VertexAttrib>::spec_vertex_attrib_desc().unit_size == vstd::layout::size_of::<u16>(),
        <u32 as VertexAttrib>::spec_vertex_attrib_desc().unit_size == vstd::layout::size_of::<u32>(),
        <[u32; 1] as VertexAttrib>::spec_vertex_attrib_desc().unit_size == vstd::layout::size_of::<u32>(),
        <[u32; 2] as VertexAttrib>::spec_vertex_attrib_desc().unit_size == vstd::layout::size_of::<u32>(),
        <[u32; 3] as VertexAttrib>::spec_vertex_attrib_desc().unit_size == vstd::layout::size_of::<u32>(),
        <[u32; 4] as VertexAttrib>::spec_vertex_attrib_desc().unit_size == vstd::layout::size_of::<u32>(),
        <bool as VertexAttrib>::spec_vertex_attrib_desc().unit_size == vstd::layout::size_of::<bool>(),
        <[bool; 1] as VertexAttrib>::spec_vertex_attrib_desc().unit_size == vstd::layout::size_of::<bool>(),
        <[bool; 2] as VertexAttrib>::spec_vertex_attrib_desc().unit_size == vstd::layout::size_of::<bool>(),
        <[bool; 3] as VertexAttrib>::spec_vertex_attrib_desc().unit_size == vstd::layout::size_of::<bool>(),
        <[bool; 4] as VertexAttrib>::spec_vertex_attrib_desc().unit_size == vstd::layout::size_of::<bool>(),
{
    broadcast use vstd::layout::layout_of_primitives;

}

/// Every attribute is described by its element type: a scalar is one component whose unit size
/// is the size of its type, and an array `[T; n]` is `n` components of the type, unit size and
/// alignment of `T`.
pub proof fn law_vertex_attribs_follow_their_types()
    ensures
        <i8 as VertexAttrib>::spec_vertex_attrib_desc().dim == VertexAttribDim::Dim1,
        <i8 as VertexAttrib>::spec_vertex_attrib_desc().unit_size == vstd::layout::size_of::<i8>(),
        <[i8; 1] as VertexAttrib>::spec_vertex_attrib_desc().dim == VertexAttribDim::Dim1,
        <[i8; 1] as VertexAttrib>::spec_vertex_attrib_desc().ty == <i8 as VertexAttrib>::spec_vertex_attrib_desc().ty,
        <[i8; 1] as VertexAttrib>::spec_vertex_attrib_desc().unit_size == <i8 as VertexAttrib>::spec_vertex_attrib_desc().unit_size,
        <[i8; 1] as VertexAttrib>::spec_vertex_attrib_desc().align == <i8 as VertexAttrib>::spec_vertex_attrib_desc().align,
        <[i8; 2] as VertexAttrib>::spec_vertex_attrib_desc().dim == VertexAttribDim::Dim2,
        <[i8; 2] as VertexAttrib>::spec_vertex_attrib_desc().ty == <i8 as VertexAttrib>::spec_vertex_attrib_desc().ty,
        <[i8; 2] as VertexAttrib>::spec_vertex_attrib_desc().unit_size == <i8 as VertexAttrib>::spec_vertex_attrib_desc().unit_size,
        <[i8; 2] as VertexAttrib>::spec_vertex_attrib_desc().align == <i8 as VertexAttrib>::spec_vertex_attrib_desc().align,
        <[i8; 3] as VertexAttrib>::spec_vertex_attrib_desc().dim == VertexAttribDim::Dim3,
        <[i8; 3] as VertexAttrib>::spec_vertex_attrib_desc().ty == <i8 as VertexAttrib>::spec_vertex_attrib_desc().ty,
        <[i8; 3] as VertexAttrib>::spec_vertex_attrib_desc().unit_size == <i8 as VertexAttrib>::spec_vertex_attrib_desc().unit_size,
        <[i8; 3] as VertexAttrib>::spec_vertex_attrib_desc().align == <i8 as VertexAttrib>::spec_vertex_attrib_desc().align,
        <[i8; 4] as VertexAttrib>::spec_vertex_attrib_desc().dim == VertexAttribDim::Dim4,
        <[i8; 4] as VertexAttrib>::spec_vertex_attrib_desc().ty == <i8 as VertexAttrib>::spec_vertex_attrib_desc().ty,
        <[i8; 4] as VertexAttrib>::spec_vertex_attrib_desc().unit_size == <i8 as VertexAttrib>::spec_vertex_attrib_desc().unit_size,
        <[i8; 4] as VertexAttrib>::spec_vertex_attrib_desc().align == <i8 as VertexAttrib>::spec_vertex_attrib_desc().align,
        <i16 as VertexAttrib>::spec_vertex_attrib_desc().dim == VertexAttribDim::Dim1,
        <i16 as VertexAttrib>::spec_vertex_attrib_desc().unit_size == vstd::layout::size_of::<i16>(),
        <[i16; 1] as VertexAttrib>::spec_vertex_attrib_desc().dim == VertexAttribDim::Dim1,
        <[i16; 1] as VertexAttrib>::spec_vertex_attrib_desc().ty == <i16 as VertexAttrib>::spec_vertex_attrib_desc().ty,
        <[i16; 1] as VertexAttrib>::spec_vertex_attrib_desc().unit_size == <i16 as VertexAttrib>::spec_vertex_attrib_desc().unit_size,
        <[i16; 1] as VertexAttrib>::spec_vertex_attrib_desc().align == <i16 as VertexAttrib>::spec_vertex_attrib_desc().align,
        <[i16; 2] as VertexAttrib>::spec_vertex_attrib_desc().dim == VertexAttribDim::Dim2,
        <[i16; 2] as VertexAttrib>::spec_vertex_attrib_desc().ty == <i16 as VertexAttrib>::spec_vertex_attrib_desc().ty,
        <[i16; 2] as VertexAttrib>::spec_vertex_attrib_desc().unit_size == <i16 as VertexAttrib>::spec_vertex_attrib_desc().unit_size,
        <[i16; 2] as VertexAttrib>::spec_vertex_attrib_desc().align == <i16 as VertexAttrib>::spec_vertex_attrib_desc().align,
        <[i16; 3] as VertexAttrib>::spec_vertex_attrib_desc().dim == VertexAttribDim::Dim3,
        <[i16; 3] as VertexAttrib>::spec_vertex_attrib_desc().ty == <i16 as VertexAttrib>::spec_vertex_attrib_desc().ty,
        <[i16; 3] as VertexAttrib>::spec_vertex_attrib_desc().unit_size == <i16 as VertexAttrib>::spec_vertex_attrib_desc().unit_size,
        <[i16; 3] as VertexAttrib>::spec_vertex_attrib_desc().align == <i16 as VertexAttrib>::spec_vertex_attrib_desc().align,
        <[i16; 4] as VertexAttrib>::spec_vertex_attrib_desc().dim == VertexAttribDim::Dim4,
        <[i16; 4] as VertexAttrib>::spec_vertex_attrib_desc().ty == <i16 as VertexAttrib>::spec_vertex_attrib_desc().ty,
        <[i16; 4] as VertexAttrib>::spec_vertex_attrib_desc().unit_size == <i16 as VertexAttrib>::spec_vertex_attrib_desc().unit_size,
        <[i16; 4] as VertexAttrib>::spec_vertex_attrib_desc().align == <i16 as VertexAttrib>::spec_vertex_attrib_desc().align,
        <i32 as VertexAttrib>::spec_vertex_attrib_desc().dim == VertexAttribDim::Dim1,
        <i32 as VertexAttrib>::spec_vertex_attrib_desc().unit_size == vstd::layout::size_of::<i32>(),
        <[i32; 1] as VertexAttrib>::spec_vertex_attrib_desc().dim == VertexAttribDim::Dim1,
        <[i32; 1] as VertexAttrib>::spec_vertex_attrib_desc().ty == <i32 as VertexAttrib>::spec_vertex_attrib_desc().ty,
        <[i32; 1] as VertexAttrib>::spec_vertex_attrib_desc().unit_size == <i32 as VertexAttrib>::spec_vertex_attrib_desc().unit_size,
        <[i32; 1] as VertexAttrib>::spec_vertex_attrib_desc().align == <i32 as VertexAttrib>::spec_vertex_attrib_desc().align,
        <[i32; 2] as VertexAttrib>::spec_vertex_attrib_desc().dim == VertexAttribDim::Dim2,
        <[i32; 2] as VertexAttrib>::spec_vertex_attrib_desc().ty == <i32 as VertexAttrib>::spec_vertex_attrib_desc().ty,
        <[i32; 2] as VertexAttrib>::spec_vertex_attrib_desc().unit_size == <i32 as VertexAttrib>::spec_vertex_attrib_desc().unit_size,
        <[i32; 2] as VertexAttrib>::spec_vertex_attrib_desc().align == <i32 as VertexAttrib>::spec_vertex_attrib_desc().align,
        <[i32; 3] as VertexAttrib>::spec_vertex_attrib_desc().dim == VertexAttribDim::Dim3,
        <[i32; 3] as VertexAttrib>::spec_vertex_attrib_desc().ty == <i32 as VertexAttrib>::spec_vertex_attrib_desc().ty,
        <[i32; 3] as VertexAttrib>::spec_vertex_attrib_desc().unit_size == <i32 as VertexAttrib>::spec_vertex_attrib_desc().unit_size,
        <[i32; 3] as VertexAttrib>::spec_vertex_attrib_desc().align == <i32 as VertexAttrib>::spec_vertex_attrib_desc().align,
        <[i32; 4] as VertexAttrib>::spec_vertex_attrib_desc().dim == VertexAttribDim::Dim4,
        <[i32; 4] as VertexAttrib>::spec_vertex_attrib_desc().ty == <i32 as VertexAttrib>::spec_vertex_attrib_desc().ty,
        <[i32; 4] as VertexAttrib>::spec_vertex_attrib_desc().unit_size == <i32 as VertexAttrib>::spec_vertex_attrib_desc().unit_size,
        <[i32; 4] as VertexAttrib>::spec_vertex_attrib_desc().align == <i32 as VertexAttrib>::spec_vertex_attrib_desc().align,
        <u8 as VertexAttrib>::spec_vertex_attrib_desc().dim == VertexAttribDim::Dim1,
        <u8 as VertexAttrib>::spec_vertex_attrib_desc().unit_size == vstd::layout::size_of::<u8>(),
        <[u8; 1] as VertexAttrib>::spec_vertex_attrib_desc().dim == VertexAttribDim::Dim1,
        <[u8; 1] as VertexAttrib>::spec_vertex_attrib_desc().ty == <u8 as VertexAttrib>::spec_vertex_attrib_desc().ty,
        <[u8; 1] as VertexAttrib>::spec_vertex_attrib_desc().unit_size == <u8 as VertexAttrib>::spec_vertex_attrib_desc().unit_size,
        <[u8; 1] as VertexAttrib>::spec_vertex_attrib_desc().align == <u8 as VertexAttrib>::spec_vertex_attrib_desc().align,
        <[u8; 2] as VertexAttrib>::spec_vertex_attrib_desc().dim == VertexAttribDim::Dim2,
        <[u8; 2] as VertexAttrib>::spec_vertex_attrib_desc().ty == <u8 as VertexAttrib>::spec_vertex_attrib_desc().ty,
        <[u8; 2] as VertexAttrib>::spec_vertex_attrib_desc().unit_size == <u8 as VertexAttrib>::spec_vertex_attrib_desc().unit_size,
        <[u8; 2] as VertexAttrib>::spec_vertex_attrib_desc().align == <u8 as VertexAttrib>::spec_vertex_attrib_desc().align,
        <[u8; 3] as VertexAttrib>::spec_vertex_attrib_desc().dim == VertexAttribDim::Dim3,
        <[u8; 3] as VertexAttrib>::spec_vertex_attrib_desc().ty == <u8 as VertexAttrib>::spec_vertex_attrib_desc().ty,
        <[u8; 3] as VertexAttrib>::spec_vertex_attrib_desc().unit_size == <u8 as VertexAttrib>::spec_vertex_attrib_desc().unit_size,
        <[u8; 3] as VertexAttrib>::spec_vertex_attrib_desc().align == <u8 as VertexAttrib>::spec_vertex_attrib_desc().align,
        <[u8; 4] as VertexAttrib>::spec_vertex_attrib_desc().dim == VertexAttribDim::Dim4,
        <[u8; 4] as VertexAttrib>::spec_vertex_attrib_desc().ty == <u8 as VertexAttrib>::spec_vertex_attrib_desc().ty,
        <[u8; 4] as VertexAttrib>::spec_vertex_attrib_desc().unit_size == <u8 as VertexAttrib>::spec_vertex_attrib_desc().unit_size,
        <[u8; 4] as VertexAttrib>::spec_vertex_attrib_desc().align == <u8 as VertexAttrib>::spec_vertex_attrib_desc().align,
        <u16 as VertexAttrib>::spec_vertex_attrib_desc().dim == VertexAttribDim::Dim1,
        <u16 as VertexAttrib>::spec_vertex_attrib_desc().unit_size == vstd::layout::size_of::<u16>(),
        <[u16; 1] as VertexAttrib>::spec_vertex_attrib_desc().dim == VertexAttribDim::Dim1,
        <[u16; 1] as VertexAttrib>::spec_vertex_attrib_desc().ty == <u16 as VertexAttrib>::spec_vertex_attrib_desc().ty,
        <[u16; 1] as VertexAttrib>::spec_vertex_attrib_desc().unit_size == <u16 as VertexAttrib>::spec_vertex_attrib_desc().unit_size,
        <[u16; 1] as VertexAttrib>::spec_vertex_attrib_desc().align == <u16 as VertexAttrib>::spec_vertex_attrib_desc().align,
        <[u16; 2] as VertexAttrib>::spec_vertex_attrib_desc().dim == VertexAttribDim::Dim2,
        <[u16; 2] as VertexAttrib>::spec_vertex_attrib_desc().ty == <u16 as VertexAttrib>::spec_vertex_attrib_desc().ty,
        <[u16; 2] as VertexAttrib>::spec_vertex_attrib_desc().unit_size == <u16 as VertexAttrib>::spec_vertex_attrib_desc().unit_size,
        <[u16; 2] as VertexAttrib>::spec_vertex_attrib_desc().align == <u16 as VertexAttrib>::spec_vertex_attrib_desc().align,
        <[u16; 3] as VertexAttrib>::spec_vertex_attrib_desc().dim == VertexAttribDim::Dim3,
        <[u16; 3] as VertexAttrib>::spec_vertex_attrib_desc().ty == <u16 as VertexAttrib>::spec_vertex_attrib_desc().ty,
        <[u16; 3] as VertexAttrib>::spec_vertex_attrib_desc().unit_size == <u16 as VertexAttrib>::spec_vertex_attrib_desc().unit_size,
        <[u16; 3] as VertexAttrib>::spec_vertex_attrib_desc().align == <u16 as VertexAttrib>::spec_vertex_attrib_desc().align,
        <[u16; 4] as VertexAttrib>::spec_vertex_attrib_desc().dim == VertexAttribDim::Dim4,
        <[u16; 4] as VertexAttrib>::spec_vertex_attrib_desc().ty == <u16 as VertexAttrib>::spec_vertex_attrib_desc().ty,
        <[u16; 4] as VertexAttrib>::spec_vertex_attrib_desc().unit_size == <u16 as VertexAttrib>::spec_vertex_attrib_desc().unit_size,
        <[u16; 4] as VertexAttrib>::spec_vertex_attrib_desc().align == <u16 as VertexAttrib>::spec_vertex_attrib_desc().align,
        <u32 as VertexAttrib>::spec_vertex_attrib_desc().dim == VertexAttribDim::Dim1,
        <u32 as VertexAttrib>::spec_vertex_attrib_desc().unit_size == vstd::layout::size_of::<u32>(),
        <[u32; 1] as VertexAttrib>::spec_vertex_attrib_desc().dim == VertexAttribDim::Dim1,
        <[u32; 1] as VertexAttrib>::spec_vertex_attrib_desc().ty == <u32 as VertexAttrib>::spec_vertex_attrib_desc().ty,
        <[u32; 1] as VertexAttrib>::spec_vertex_attrib_desc().unit_size == <u32 as VertexAttrib>::spec_vertex_attrib_desc().unit_size,
        <[u32; 1] as VertexAttrib>::spec_vertex_attrib_desc().align == <u32 as VertexAttrib>::spec_vertex_attrib_desc().align,
        <[u32; 2] as VertexAttrib>::spec_vertex_attrib_desc().dim == VertexAttribDim::Dim2,
        <[u32; 2] as VertexAttrib>::spec_vertex_attrib_desc().ty == <u32 as VertexAttrib>::spec_vertex_attrib_desc().ty,
        <[u32; 2] as VertexAttrib>::spec_vertex_attrib_desc().unit_size == <u32 as VertexAttrib>::spec_vertex_attrib_desc().unit_size,
        <[u32; 2] as VertexAttrib>::spec_vertex_attrib_desc().align == <u32 as VertexAttrib>::spec_vertex_attrib_desc().align,
        <[u32; 3] as VertexAttrib>::spec_vertex_attrib_desc().dim == VertexAttribDim::Dim3,
        <[u32; 3] as VertexAttrib>::spec_vertex_attrib_desc().ty == <u32 as VertexAttrib>::spec_vertex_attrib_desc().ty,
        <[u32; 3] as VertexAttrib>::spec_vertex_attrib_desc().unit_size == <u32 as VertexAttrib>::spec_vertex_attrib_desc().unit_size,
        <[u32; 3] as VertexAttrib>::spec_vertex_attrib_desc().align == <u32 as VertexAttrib>::spec_vertex_attrib_desc().align,
        <[u32; 4] as VertexAttrib>::spec_vertex_attrib_desc().dim == VertexAttribDim::Dim4,
        <[u32; 4] as VertexAttrib>::spec_vertex_attrib_desc().ty == <u32 as VertexAttrib>::spec_vertex_attrib_desc().ty,
        <[u32; 4] as VertexAttrib>::spec_vertex_attrib_desc().unit_size == <u32 as VertexAttrib>::spec_vertex_attrib_desc().unit_size,
        <[u32; 4] as VertexAttrib>::spec_vertex_attrib_desc().align == <u32 as VertexAttrib>::spec_vertex_attrib_desc().align,
        <bool as VertexAttrib>::spec_vertex_attrib_desc().dim == VertexAttribDim::Dim1,
        <bool as VertexAttrib>::spec_vertex_attrib_desc().unit_size == vstd::layout::size_of::<bool>(),
        <[bool; 1] as VertexAttrib>::spec_vertex_attrib_desc().dim == VertexAttribDim::Dim1,
        <[bool; 1] as VertexAttrib>::spec_vertex_attrib_desc().ty == <bool as VertexAttrib>::spec_vertex_attrib_desc().ty,
        <[bool; 1] as VertexAttrib>::spec_vertex_attrib_desc().unit_size == <bool as VertexAttrib>::spec_vertex_attrib_desc().unit_size,
        <[bool; 1] as VertexAttrib>::spec_vertex_attrib_desc().align == <bool as VertexAttrib>::spec_vertex_attrib_desc().align,
        <[bool; 2] as VertexAttrib>::spec_vertex_attrib_desc().dim == VertexAttribDim::Dim2,
        <[bool; 2] as VertexAttrib>::spec_vertex_attrib_desc().ty == <bool as VertexAttrib>::spec_vertex_attrib_desc().ty,
        <[bool; 2] as VertexAttrib>::spec_vertex_attrib_desc().unit_size == <bool as VertexAttrib>::spec_vertex_attrib_desc().unit_size,
        <[bool; 2] as VertexAttrib>::spec_vertex_attrib_desc().align == <bool as VertexAttrib>::spec_vertex_attrib_desc().align,
        <[bool; 3] as VertexAttrib>::spec_vertex_attrib_desc().dim == VertexAttribDim::Dim3,
        <[bool; 3] as VertexAttrib>::spec_vertex_attrib_desc().ty == <bool as VertexAttrib>::spec_vertex_attrib_desc().ty,
        <[bool; 3] as VertexAttrib>::spec_vertex_attrib_desc().unit_size == <bool as VertexAttrib>::spec_vertex_attrib_desc().unit_size,
        <[bool; 3] as VertexAttrib>::spec_vertex_attrib_desc().align == <bool as VertexAttrib>::spec_vertex_attrib_desc().align,
        <[bool; 4] as VertexAttrib>::spec_vertex_attrib_desc().dim == VertexAttribDim::Dim4,
        <[bool; 4] as VertexAttrib>::spec_vertex_attrib_desc().ty == <bool as VertexAttrib>::spec_vertex_attrib_desc().ty,
        <[bool; 4] as VertexAttrib>::spec_vertex_attrib_desc().unit_size == <bool as VertexAttrib>::spec_vertex_attrib_desc().unit_size,
        <[bool; 4] as VertexAttrib>::spec_vertex_attrib_desc().align == <bool as VertexAttrib>::spec_vertex_attrib_desc().align,
{
    broadcast use vstd::layout::layout_of_primitives;

}

} // verus!
