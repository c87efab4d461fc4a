//! Pass actions, buffer descriptions and vertex layouts on concrete
//! values.

use rokol::gfx::{
    ibuf_desc, layout_formats, vbuf_desc, vertex_format, BufferType, Color,
    ColorAttachmentAction, PassAction, PassActionKind, PassActionRaw, ResourceUsage, VertexField,
    VertexFormat,
};

fn bits(x: f32) -> u32 {
    x.to_bits()
}

#[test]
fn pass_action_default_is_all_default() {
    let raw = PassActionRaw::default();
    for c in raw.colors.iter() {
        assert_eq!(c.action, PassActionKind::_Default);
        assert_eq!(c.val, Color { r: 0, g: 0, b: 0, a: 0 });
    }
    assert_eq!(raw.depth.action, PassActionKind::_Default);
    assert_eq!(raw.depth.val, 0);
    assert_eq!(raw.stencil.action, PassActionKind::_Default);
    assert_eq!(raw.stencil.val, 0);
}

#[test]
fn pass_action_clear_sets_first_color() {
    let color = Color { r: bits(0.1), g: bits(0.2), b: bits(0.3), a: bits(1.0) };
    let pa = PassAction::clear(color);
    let raw = pa.raw();
    assert_eq!(raw.colors[0], ColorAttachmentAction { action: PassActionKind::Clear, val: color });
    for c in raw.colors[1..].iter() {
        assert_eq!(c.action, PassActionKind::_Default);
    }
    assert_eq!(raw.depth.action, PassActionKind::_Default);
    assert_eq!(raw.stencil.action, PassActionKind::_Default);
}

#[test]
fn pass_action_wraps_raw() {
    let mut raw = PassActionRaw::default();
    raw.depth.action = PassActionKind::Load;
    let pa = PassAction::new(raw);
    assert_eq!(*pa.raw(), raw);
    let pa2 = PassAction::new_const(raw);
    assert_eq!(*pa2.raw(), raw);

    let mut pa3 = PassAction::new(PassActionRaw::default());
    pa3.raw_mut().stencil.action = PassActionKind::DontCare;
    assert_eq!(pa3.raw().stencil.action, PassActionKind::DontCare);
}

#[test]
fn buffer_descriptions() {
    let data = vec![1u8, 2, 3, 4];
    let d = ibuf_desc(&data, ResourceUsage::Immutable, "indices");
    assert_eq!(d.content, data);
    assert_eq!(d.type_, BufferType::Index);
    assert_eq!(d.usage, ResourceUsage::Immutable);
    assert_eq!(d.label.as_deref(), Some("indices"));

    let d = vbuf_desc(&data, ResourceUsage::Dynamic, "");
    assert_eq!(d.content, data);
    assert_eq!(d.type_, BufferType::Vertex);
    assert_eq!(d.usage, ResourceUsage::Dynamic);
    assert_eq!(d.label, None);
}

#[test]
fn vertex_format_mapping() {
    assert_eq!(vertex_format(VertexField::F32), VertexFormat::Float);
    assert_eq!(vertex_format(VertexField::F32x2), VertexFormat::Float2);
    assert_eq!(vertex_format(VertexField::F32x3), VertexFormat::Float3);
    assert_eq!(vertex_format(VertexField::F32x4), VertexFormat::Float4);
    assert_eq!(vertex_format(VertexField::U8x4), VertexFormat::UByte4N);
}

/// A vertex of a position, a color and texture coordinates lays out the
/// same way whether written by hand or derived field by field.
#[test]
fn layout_derive() {
    // pos: [f32; 2], color: [u8; 4], uv: [f32; 2]
    let fields = vec![VertexField::F32x2, VertexField::U8x4, VertexField::F32x2];
    let derived = layout_formats(&fields);
    let manual = vec![VertexFormat::Float2, VertexFormat::UByte4N, VertexFormat::Float2];
    assert_eq!(derived, manual);
}
