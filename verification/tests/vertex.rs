use lib::vertex::{
    align_of, size_of, Normalized, Semantics, SemanticsDesc, Vertex, VertexAttrib,
    VertexAttribDesc, VertexAttribDim, VertexAttribType, VertexBufferDesc, VertexInstancing,
};

#[derive(Clone, Copy, Debug, PartialEq)]
enum Sem {
    Position,
    Color,
}

impl Semantics for Sem {
    fn index(&self) -> usize {
        match self {
            Sem::Position => 0,
            Sem::Color => 1,
        }
    }

    fn name(&self) -> &'static str {
        match self {
            Sem::Position => "position",
            Sem::Color => "color",
        }
    }

    fn semantics_set() -> Vec<SemanticsDesc> {
        vec![
            SemanticsDesc {
                index: 0,
                name: "position".to_owned(),
            },
            SemanticsDesc {
                index: 1,
                name: "color".to_owned(),
            },
        ]
    }
}

#[test]
fn normalize_integral_types() {
    assert_eq!(
        VertexAttribType::Integral(Normalized::No).normalize(),
        VertexAttribType::Integral(Normalized::Yes)
    );
    assert_eq!(
        VertexAttribType::Unsigned(Normalized::No).normalize(),
        VertexAttribType::Unsigned(Normalized::Yes)
    );
    assert_eq!(
        VertexAttribType::Unsigned(Normalized::Yes).normalize(),
        VertexAttribType::Unsigned(Normalized::Yes)
    );
    assert_eq!(VertexAttribType::Floating.normalize(), VertexAttribType::Floating);
    assert_eq!(VertexAttribType::Boolean.normalize(), VertexAttribType::Boolean);
}

#[test]
fn normalize_is_idempotent() {
    for ty in [
        VertexAttribType::Integral(Normalized::No),
        VertexAttribType::Unsigned(Normalized::Yes),
        VertexAttribType::Floating,
        VertexAttribType::Boolean,
    ] {
        assert_eq!(ty.normalize().normalize(), ty.normalize());
    }
}

#[test]
fn normalize_attrib_desc() {
    let desc = <[u8; 4] as VertexAttrib>::vertex_attrib_desc();
    assert_eq!(
        desc,
        VertexAttribDesc {
            ty: VertexAttribType::Unsigned(Normalized::No),
            dim: VertexAttribDim::Dim4,
            unit_size: 1,
            align: 1,
        }
    );
    let normalized = desc.normalize();
    assert_eq!(normalized.ty, VertexAttribType::Unsigned(Normalized::Yes));
    assert_eq!(normalized.dim, VertexAttribDim::Dim4);
    assert_eq!(normalized.unit_size, 1);
    assert_eq!(normalized.align, 1);
}

#[test]
fn attrib_descs_of_primitives() {
    assert_eq!(
        <i32 as VertexAttrib>::vertex_attrib_desc(),
        VertexAttribDesc {
            ty: VertexAttribType::Integral(Normalized::No),
            dim: VertexAttribDim::Dim1,
            unit_size: 4,
            align: 4,
        }
    );
    assert_eq!(
        <[u16; 3] as VertexAttrib>::vertex_attrib_desc(),
        VertexAttribDesc {
            ty: VertexAttribType::Unsigned(Normalized::No),
            dim: VertexAttribDim::Dim3,
            unit_size: 2,
            align: 2,
        }
    );
    assert_eq!(
        <[bool; 2] as VertexAttrib>::vertex_attrib_desc(),
        VertexAttribDesc {
            ty: VertexAttribType::Boolean,
            dim: VertexAttribDim::Dim2,
            unit_size: 1,
            align: 1,
        }
    );
}

#[test]
fn unit_sizes_match_the_element_sizes() {
    assert_eq!(<i8 as VertexAttrib>::vertex_attrib_desc().unit_size, std::mem::size_of::<i8>());
    assert_eq!(<u32 as VertexAttrib>::vertex_attrib_desc().unit_size, std::mem::size_of::<u32>());
    assert_eq!(
        <[i16; 4] as VertexAttrib>::vertex_attrib_desc().unit_size,
        std::mem::size_of::<i16>()
    );
}

#[test]
fn size_and_align_of() {
    assert_eq!(size_of::<u32>(), 4);
    assert_eq!(size_of::<[u16; 3]>(), 6);
    assert_eq!(align_of::<u64>(), std::mem::align_of::<u64>());
    assert_eq!(align_of::<u8>(), 1);
}

#[test]
fn vertex_buffer_desc_from_semantics() {
    let attrib = <[u8; 4] as VertexAttrib>::vertex_attrib_desc();
    let desc = VertexBufferDesc::new(Sem::Color, VertexInstancing::On, attrib);
    assert_eq!(desc.index, 1);
    assert_eq!(desc.name, "color");
    assert_eq!(desc.instancing, VertexInstancing::On);
    assert_eq!(desc.attrib_desc, attrib);
    assert_eq!(Sem::semantics_set().len(), 2);
    assert_eq!(Sem::Position.index(), 0);
}

#[test]
fn unit_vertex_has_no_attribute() {
    assert_eq!(<() as Vertex>::ATTR_COUNT, 0);
    assert!(<() as Vertex>::vertex_desc().is_empty());
    assert_eq!(().index(), 0);
    assert_eq!(().name(), "");
    assert!(<() as Semantics>::semantics_set().is_empty());
}

#[test]
fn debug_texts_match_derived_debug() {
    let attrib = <[i8; 2] as VertexAttrib>::vertex_attrib_desc();
    assert_eq!(attrib.debug_text(), format!("{:?}", attrib));
    let desc = VertexBufferDesc::new(Sem::Position, VertexInstancing::Off, attrib);
    assert_eq!(desc.debug_text(), format!("{:?}", desc));
    assert_eq!(
        lib::vertex::vertex_desc_debug_text(&vec![desc, desc]),
        format!("{:?}", vec![desc, desc])
    );
    assert_eq!(lib::vertex::vertex_desc_debug_text(&Vec::new()), "[]");
}
