use lib::buffer::BufferError;
use lib::framebuffer::{FramebufferError, IncompleteReason};
use lib::pixel::{Format, PixelFormat, Size, Type};
use lib::shader::{
    ProgramError, ProgramWarning, StageError, StageType, UniformType, UniformWarning,
    VertexAttribWarning,
};
use lib::tess::{Mode, TessError, TessIndexType, TessMapError, TessViewError};
use lib::texture::{Dim, TextureError};
use lib::vertex::{
    Normalized, VertexAttribDesc, VertexAttribDim, VertexAttribType, VertexBufferDesc,
    VertexInstancing,
};

#[test]
fn incomplete_reason_texts() {
    assert_eq!(IncompleteReason::Undefined.to_string(), "incomplete reason");
    assert_eq!(IncompleteReason::IncompleteAttachment.to_string(), "incomplete attachment");
    assert_eq!(IncompleteReason::MissingAttachment.to_string(), "missing attachment");
    assert_eq!(IncompleteReason::IncompleteDrawBuffer.to_string(), "incomplete draw buffer");
    assert_eq!(IncompleteReason::IncompleteReadBuffer.to_string(), "incomplete read buffer");
    assert_eq!(IncompleteReason::Unsupported.to_string(), "unsupported");
    assert_eq!(IncompleteReason::IncompleteMultisample.to_string(), "incomplete multisample");
    assert_eq!(IncompleteReason::IncompleteLayerTargets.to_string(), "incomplete layer targets");
}

#[test]
fn framebuffer_error_texts() {
    assert_eq!(
        FramebufferError::cannot_create().to_string(),
        "cannot create the framebuffer on the GPU side"
    );
    assert_eq!(
        FramebufferError::texture_error(TextureError::cannot_upload_texels("busy")).to_string(),
        "framebuffer texture error: cannot upload texels to texture: busy"
    );
    assert_eq!(
        FramebufferError::incomplete(IncompleteReason::MissingAttachment).to_string(),
        "incomplete framebuffer: missing attachment"
    );
    assert_eq!(
        FramebufferError::unsupported_attachment().to_string(),
        "unsupported framebuffer attachment"
    );
}

#[test]
fn framebuffer_error_conversions() {
    assert_eq!(
        FramebufferError::from(IncompleteReason::Unsupported),
        FramebufferError::Incomplete(IncompleteReason::Unsupported)
    );
    assert_eq!(
        FramebufferError::from(TextureError::not_enough_pixels(4, 2)),
        FramebufferError::TextureError(TextureError::NotEnoughPixels {
            expected_bytes: 4,
            provided_bytes: 2
        })
    );
    assert_eq!(FramebufferError::cannot_create(), FramebufferError::CannotCreate);
    assert_eq!(
        FramebufferError::unsupported_attachment(),
        FramebufferError::UnsupportedAttachment
    );
}

#[test]
fn texture_error_texts() {
    assert_eq!(
        TextureError::texture_storage_creation_failed("no memory").to_string(),
        "texture storage creation failed: no memory"
    );
    assert_eq!(
        TextureError::not_enough_pixels(64, 32).to_string(),
        "not enough texels provided: expected 64 bytes, provided 32 bytes"
    );
    let pf = PixelFormat {
        encoding: Type::Unsigned,
        format: Format::RG(Size::Eight, Size::Eight),
    };
    assert_eq!(
        TextureError::unsupported_pixel_format(pf).to_string(),
        format!("unsupported pixel format: {:?}", pf)
    );
    assert_eq!(
        TextureError::cannot_retrieve_texels("write only").to_string(),
        "cannot retrieve texture\u{2019}s texels: write only"
    );
    assert_eq!(
        TextureError::cannot_upload_texels(String::from("lost")).to_string(),
        "cannot upload texels to texture: lost"
    );
}

#[test]
fn dim_texts() {
    assert_eq!(Dim::Dim1.to_string(), "1D");
    assert_eq!(Dim::Dim2.to_string(), "2D");
    assert_eq!(Dim::Dim3.to_string(), "3D");
    assert_eq!(Dim::Cubemap.to_string(), "cubemap");
    assert_eq!(Dim::Dim1Array.to_string(), "1D array");
    assert_eq!(Dim::Dim2Array.to_string(), "2D array");
}

#[test]
fn stage_texts() {
    assert_eq!(StageType::VertexShader.to_string(), "vertex shader");
    assert_eq!(
        StageType::TessellationControlShader.to_string(),
        "tessellation control shader"
    );
    assert_eq!(
        StageType::TessellationEvaluationShader.to_string(),
        "tessellation evaluation shader"
    );
    assert_eq!(StageType::GeometryShader.to_string(), "geometry shader");
    assert_eq!(StageType::FragmentShader.to_string(), "fragment shader");
    assert_eq!(
        StageError::compilation_failed(StageType::FragmentShader, "syntax error").to_string(),
        "fragment shader compilation error: syntax error"
    );
    assert_eq!(
        StageError::unsupported_type(StageType::GeometryShader).to_string(),
        "unsupported geometry shader"
    );
}

#[test]
fn program_texts() {
    assert_eq!(
        ProgramError::creation_failed("no context").to_string(),
        "cannot create shader program: no context"
    );
    assert_eq!(
        ProgramError::stage_error(StageError::unsupported_type(StageType::VertexShader))
            .to_string(),
        "shader program has stage error: unsupported vertex shader"
    );
    assert_eq!(
        ProgramError::link_failed("missing main").to_string(),
        "shader program failed to link: missing main"
    );
    assert_eq!(
        ProgramError::warning(ProgramWarning::Uniform(UniformWarning::inactive("t"))).to_string(),
        "shader program warning: uniform warning: inactive t uniform"
    );
    assert_eq!(
        ProgramWarning::VertexAttrib(VertexAttribWarning::inactive("pos")).to_string(),
        "vertex attribute warning: inactive pos vertex attribute"
    );
    assert_eq!(
        UniformWarning::type_mismatch("color", UniformType::Vec4).to_string(),
        "type mismatch for uniform color: vec4"
    );
}

#[test]
fn program_error_conversions() {
    let e = ProgramError::from(StageError::unsupported_type(StageType::FragmentShader));
    assert!(matches!(
        e,
        ProgramError::StageError(StageError::UnsupportedType(StageType::FragmentShader))
    ));
    let w = ProgramWarning::from(UniformWarning::inactive("x"));
    assert!(matches!(w, ProgramWarning::Uniform(UniformWarning::Inactive(ref n)) if n == "x"));
    let v = ProgramWarning::from(VertexAttribWarning::inactive("y"));
    assert!(
        matches!(v, ProgramWarning::VertexAttrib(VertexAttribWarning::Inactive(ref n)) if n == "y")
    );
    let p = ProgramError::from(ProgramWarning::Uniform(UniformWarning::inactive("z")));
    assert!(matches!(p, ProgramError::Warning(ProgramWarning::Uniform(_))));
}

#[test]
fn uniform_type_texts() {
    assert_eq!(UniformType::Int.to_string(), "int");
    assert_eq!(UniformType::UIVec3.to_string(), "uvec3");
    assert_eq!(UniformType::M44.to_string(), "mat4");
    assert_eq!(UniformType::ISampler2DArray.to_string(), "isampler2DArray");
    assert_eq!(UniformType::UICubemap.to_string(), "usamplerCube");
    assert_eq!(UniformType::Cubemap.to_string(), "samplerCube");
    assert_eq!(UniformType::BufferBinding.to_string(), "buffer binding");
}

#[test]
fn mode_texts() {
    assert_eq!(Mode::Point.to_string(), "point");
    assert_eq!(Mode::Line.to_string(), "line");
    assert_eq!(Mode::LineStrip.to_string(), "line strip");
    assert_eq!(Mode::Triangle.to_string(), "triangle");
    assert_eq!(Mode::TriangleStrip.to_string(), "triangle strip");
    assert_eq!(Mode::TriangleFan.to_string(), "triangle fan");
    assert_eq!(Mode::Patch(3).to_string(), "patch (3)");
}

#[test]
fn tess_error_texts() {
    assert_eq!(TessError::cannot_create("oom").to_string(), "Creation error: oom");
    assert_eq!(
        TessError::attributeless_error("no vertex").to_string(),
        "Attributeless error: no vertex"
    );
    assert_eq!(
        TessError::length_incoherency(12).to_string(),
        "Incoherent size for internal buffers: 12"
    );
    assert_eq!(
        TessError::internal_buffer_error(BufferError::MapFailed).to_string(),
        "internal buffer error: buffer mapping failed"
    );
    assert_eq!(
        TessError::forbidden_primitive_mode(Mode::Patch(4)).to_string(),
        "forbidden primitive mode: patch (4)"
    );
}

#[test]
fn tess_map_error_texts() {
    assert_eq!(
        TessMapError::buffer_map_error(BufferError::CannotCreate).to_string(),
        "cannot map tessellation buffer: cannot create buffer"
    );
    let desc = VertexBufferDesc {
        index: 1,
        name: "co",
        instancing: VertexInstancing::Off,
        attrib_desc: VertexAttribDesc {
            ty: VertexAttribType::Integral(Normalized::No),
            dim: VertexAttribDim::Dim2,
            unit_size: 4,
            align: 4,
        },
    };
    let a = vec![desc];
    let b: Vec<VertexBufferDesc> = Vec::new();
    assert_eq!(
        TessMapError::vertex_type_mismatch(a.clone(), b.clone()).to_string(),
        format!(
            "cannot map tessellation: vertex type mismatch between {:?} and {:?}",
            a, b
        )
    );
    assert_eq!(
        TessMapError::index_type_mismatch(TessIndexType::U8, TessIndexType::U32).to_string(),
        "cannot map tessellation: index type mismatch between U8 and U32"
    );
    assert_eq!(
        TessMapError::forbidden_attributeless_mapping().to_string(),
        "cannot map an attributeless buffer"
    );
    assert_eq!(
        TessMapError::forbidden_deinterleaved_mapping().to_string(),
        "cannot map a deinterleaved buffer as interleaved"
    );
}

#[test]
fn tess_view_error_text() {
    let e = TessViewError::IncorrectViewWindow {
        capacity: 3,
        start: 2,
        nb: 5,
    };
    assert_eq!(
        e.to_string(),
        "TessView incorrect window error: requested slice size 5 starting at 2, but capacity is only 3"
    );
}
