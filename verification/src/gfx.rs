/*!
Graphics vocabulary.

The resource, binding, image and rendering enums of the renderer, the pass
action, and the helpers for describing vertex and index buffers. Values of
these types describe GPU work; the platform layer translates them into the
renderer's native records.
*/

use vstd::prelude::*;

verus! {

// --------------------------------------------------------------------------------
// Resource enums

/// Actions to be performed at the start of a rendering pass.
///
/// A separate action and clear values can be defined for each color
/// attachment, and for the depth-stencil attachment. `_Default` leaves the
/// choice to the renderer (clear, with its default clear values).
#[derive(Copy, Clone, Debug, PartialEq, Eq, Hash)]
pub enum PassActionKind {
    _Default,
    Clear,
    Load,
    DontCare,
}

/// Update strategy of buffers and images.
///
/// * `Immutable`: never updated after creation
/// * `Dynamic`: updated infrequently ("once after creation" to "quite often
///   but not every frame")
/// * `Stream`: updated each frame
///
/// The rendering backends use this hint to prevent the CPU from waiting for
/// the GPU when updating a resource the GPU might be reading.
#[derive(Copy, Clone, Debug, PartialEq, Eq, Hash, Structural)]
pub enum ResourceUsage {
    _Default,
    Immutable,
    Dynamic,
    Stream,
}

/// Fs | Vs
#[derive(Copy, Clone, Debug, PartialEq, Eq, Hash)]
pub enum ShaderStage {
    /// Fragment shader
    Fs,
    /// Vertex shader
    Vs,
}

/// Mat4 | Float | Float2 | Float3 | Float4
#[derive(Copy, Clone, Debug, PartialEq, Eq, Hash)]
pub enum UniformType {
    Float,
    Float2,
    Float3,
    Float4,
    Invalid,
    Mat4,
}

/// Float | SInt | UInt
#[derive(Copy, Clone, Debug, PartialEq, Eq, Hash)]
pub enum SamplerType {
    _Default,
    Float,
    SInt,
    UInt,
}

// --------------------------------------------------------------------------------
// Binding enums

/// Data type of a vertex component.
///
/// Used to describe the layout of vertex data when creating a pipeline
/// object. Only normalized integer formats (`*N`) are portable across all
/// backends.
#[derive(Copy, Clone, Debug, PartialEq, Eq, Hash)]
pub enum VertexFormat {
    Inalid,
    Float,
    Float2,
    Float3,
    Float4,
    Byte4,
    Byte4N,
    UByte4,
    UByte4N,
    Short2,
    Short2N,
    UShort2N,
    Short4,
    Short4N,
    UShort4N,
    Uint10N2,
}

/// Index | Vertex
#[derive(Copy, Clone, Debug, PartialEq, Eq, Hash)]
pub enum BufferType {
    _Default,
    Index,
    Vertex,
}

/// UInt16 | UInt32
#[derive(Copy, Clone, Debug, PartialEq, Eq, Hash)]
pub enum IndexType {
    _Default,
    Unindexed,
    UInt16,
    UInt32,
}

/// Common subset of 3D primitive types supported across all backends.
#[derive(Copy, Clone, Debug, PartialEq, Eq, Hash)]
pub enum PrimitiveType {
    _Default,
    Lines,
    LinesStrip,
    Points,
    Triangles,
    TrianglesStrip,
}

// --------------------------------------------------------------------------------
// Image enums

/// 2D | 3D | Array | Cube: basic type of an image object.
#[derive(Copy, Clone, Debug, PartialEq, Eq, Hash)]
pub enum ImageType {
    _Default,
    /// 2D
    Dim2,
    /// 3D
    Dim3,
    Array,
    Cube,
}

/// The filtering mode when sampling a texture image.
#[derive(Copy, Clone, Debug, PartialEq, Eq, Hash)]
pub enum Filter {
    Linear,
    LinearMipmap,
    LinearMipmapNearest,
    Nearest,
    NearestMipmapLinear,
    NearestMipmapNearest,
    _Default,
}

/// The texture-coordinate wrapping mode when sampling a texture image.
#[derive(Copy, Clone, Debug, PartialEq, Eq, Hash)]
pub enum Wrap {
    _Default,
    /// Not supported on all backends; those fall back to `ClampToEdge`.
    ClampToBorder,
    ClampToEdge,
    MirroredRepeat,
    Repeat,
}

/// Pixel format.
///
/// A name consists of the components (R, RG, RGB, RGBA or BGRA), the bit
/// width per component, and the component data type (unsigned normalized
/// when there is no postfix, `f` for float). The default format for texture
/// images is `Rgba8`.
#[derive(Copy, Clone, Debug, PartialEq, Eq, Hash)]
pub enum PixelFormat {
    _Default,
    NoFormat,
    Rgba8,
    Bgra8,
    Rgb8,
    Rgba4,
    Rgb5,
    Rgb5a1,
    Rgb10a2,
    Rgba32f,
    Rgba16f,
    R32F,
    R16F,
    L8,
    Dxt1,
    Dxt3,
    Dxt5,
    Depth,
    DepthStencil,
    Pvrtc2Rgb,
    Pvrtc4Rgb,
    Pvrtc2Rgba,
    Pvrtc4Rgba,
    Etc2Rgb8,
    Etc2SRgb8,
}

// --------------------------------------------------------------------------------
// Rendering enums

/// `==`, `!=`, `>`, `>=`, `<`, `<=`, `true`, `false`
#[derive(Copy, Clone, Debug, PartialEq, Eq, Hash)]
pub enum CompareFunc {
    Always,
    Eq,
    Greater,
    GreaterEq,
    Less,
    LessEq,
    Never,
    NotEq,
    _Default,
}

/// Front | Back | None
#[derive(Copy, Clone, Debug, PartialEq, Eq, Hash)]
pub enum CullMode {
    Back,
    Front,
    Disabled,
    _Default,
}

/// CCW | CW
#[derive(Copy, Clone, Debug, PartialEq, Eq, Hash)]
pub enum FaceWinding {
    _Default,
    Ccw,
    Cw,
}

// --------------------------------------------------------------------------------
// Pass action

/// An RGBA color, each channel carried as the bit pattern of a 32-bit
/// float. The synchroniser and the pass records only carry colors through;
/// the platform layer converts them to and from float channels.
#[derive(Copy, Clone, Debug, PartialEq, Eq)]
pub struct Color {
    pub r: u32,
    pub g: u32,
    pub b: u32,
    pub a: u32,
}

/// The action for one color attachment, with its clear value.
#[derive(Copy, Clone, Debug, PartialEq, Eq)]
pub struct ColorAttachmentAction {
    pub action: PassActionKind,
    pub val: Color,
}

/// The action for the depth attachment; the clear value carries the bit
/// pattern of a 32-bit float.
#[derive(Copy, Clone, Debug, PartialEq, Eq)]
pub struct DepthAttachmentAction {
    pub action: PassActionKind,
    pub val: u32,
}

/// The action for the stencil attachment.
#[derive(Copy, Clone, Debug, PartialEq, Eq)]
pub struct StencilAttachmentAction {
    pub action: PassActionKind,
    pub val: u8,
}

/// The start-of-pass record: one action per color attachment, and one each
/// for depth and stencil.
#[derive(Copy, Clone, Debug, PartialEq, Eq)]
pub struct PassActionRaw {
    pub colors: [ColorAttachmentAction; 4],
    pub depth: DepthAttachmentAction,
    pub stencil: StencilAttachmentAction,
}

/// The all-default color clear value: zero on every channel.
pub open spec fn color_zero() -> Color {
    Color { r: 0u32, g: 0u32, b: 0u32, a: 0u32 }
}

/// The all-default color attachment action.
pub open spec fn color_attachment_default() -> ColorAttachmentAction {
    ColorAttachmentAction { action: PassActionKind::_Default, val: color_zero() }
}

/// The all-default pass record: every action left to the renderer.
pub open spec fn pass_action_default() -> PassActionRaw {
    PassActionRaw {
        colors: [
            color_attachment_default(),
            color_attachment_default(),
            color_attachment_default(),
            color_attachment_default(),
        ],
        depth: DepthAttachmentAction { action: PassActionKind::_Default, val: 0u32 },
        stencil: StencilAttachmentAction { action: PassActionKind::_Default, val: 0u8 },
    }
}

impl Default for PassActionRaw {
    /// Every action left to the renderer, every clear value zero.
    fn default() -> (r: Self)
        ensures
            r == pass_action_default(),
    {
        let caa = ColorAttachmentAction {
            action: PassActionKind::_Default,
            val: Color { r: 0, g: 0, b: 0, a: 0 },
        };
        PassActionRaw {
            colors: [caa, caa, caa, caa],
            depth: DepthAttachmentAction { action: PassActionKind::_Default, val: 0 },
            stencil: StencilAttachmentAction { action: PassActionKind::_Default, val: 0 },
        }
    }
}

/// Pass action: wraps the raw start-of-pass record just to add methods.
#[derive(Copy, Clone, Debug, PartialEq, Eq)]
pub struct PassAction {
    raw: PassActionRaw,
}

impl View for PassAction {
    type V = PassActionRaw;

    closed spec fn view(&self) -> PassActionRaw {
        self.raw
    }
}

impl PassAction {
    /// Read access to the raw record.
    pub fn raw(&self) -> (r: &PassActionRaw)
        ensures
            *r == self@,
    {
        &self.raw
    }

    /// Write access to the raw record.
    pub fn raw_mut(&mut self) -> (r: &mut PassActionRaw)
        ensures
            *r == old(self)@,
            final(self)@ == *final(r),
    {
        &mut self.raw
    }

    /// Wraps a raw record.
    pub fn new(raw: PassActionRaw) -> (pa: Self)
        ensures
            pa@ == raw,
    {
        Self { raw }
    }

    /// Wraps a raw record; the same as [`PassAction::new`].
    pub fn new_const(raw: PassActionRaw) -> (pa: Self)
        ensures
            pa@ == raw,
    {
        Self { raw }
    }

    /// Clears the first color attachment to the given color and leaves
    /// every other action at its default.
    pub fn clear(color: Color) -> (pa: Self)
        ensures
            pa@ == (PassActionRaw {
                colors: [
                    ColorAttachmentAction { action: PassActionKind::Clear, val: color },
                    color_attachment_default(),
                    color_attachment_default(),
                    color_attachment_default(),
                ],
                ..pass_action_default()
            }),
    {
        let mut raw = PassActionRaw::default();
        let caa = ColorAttachmentAction {
            action: PassActionKind::_Default,
            val: Color { r: 0, g: 0, b: 0, a: 0 },
        };
        raw.colors = [
            ColorAttachmentAction { action: PassActionKind::Clear, val: color },
            caa,
            caa,
            caa,
        ];
        Self { raw }
    }
}

// --------------------------------------------------------------------------------
// Buffer descriptions

/// Description of an index or vertex buffer to be created: the raw content
/// bytes, the buffer type, the update strategy, and an optional debug
/// label.
#[derive(Clone, Debug, PartialEq, Eq)]
pub struct BufferDesc {
    pub content: Vec<u8>,
    pub type_: BufferType,
    pub usage: ResourceUsage,
    pub label: Option<String>,
}

/// Helper for describing an index buffer.
pub fn ibuf_desc(buf: &[u8], usage: ResourceUsage, label: &str) -> (d: BufferDesc)
    ensures
        d.content@ == buf@,
        d.type_ == BufferType::Index,
        d.usage == usage,
        d.label is Some <==> label@.len() > 0,
        d.label matches Some(l) ==> l@ == label@,
{
    buf_desc(buf, BufferType::Index, usage, label)
}

/// Helper for describing a vertex buffer.
pub fn vbuf_desc(buf: &[u8], usage: ResourceUsage, label: &str) -> (d: BufferDesc)
    ensures
        d.content@ == buf@,
        d.type_ == BufferType::Vertex,
        d.usage == usage,
        d.label is Some <==> label@.len() > 0,
        d.label matches Some(l) ==> l@ == label@,
{
    buf_desc(buf, BufferType::Vertex, usage, label)
}

fn buf_desc(buf: &[u8], buffer_type: BufferType, usage: ResourceUsage, label: &str) -> (d:
    BufferDesc)
    ensures
        d.content@ == buf@,
        d.type_ == buffer_type,
        d.usage == usage,
        d.label is Some <==> label@.len() > 0,
        d.label matches Some(l) ==> l@ == label@,
{
    let mut content: Vec<u8> = Vec::new();
    let n = buf.len();
    for i in 0..n
        invariant
            n == buf@.len(),
            content@ =~= buf@.subrange(0, i as int),
    {
        content.push(buf[i]);
        proof {
            assert(content@ =~= buf@.subrange(0, i + 1));
        }
    }
    proof {
        assert(buf@.subrange(0, n as int) =~= buf@);
    }
    BufferDesc {
        content,
        type_: buffer_type,
        usage,
        label: if label.is_empty() {
            Option::None
        } else {
            Option::Some(label.to_owned())
        },
    }
}

// --------------------------------------------------------------------------------
// Vertex layouts

/// The field types a vertex layout can be built from.
#[derive(Copy, Clone, Debug, PartialEq, Eq, Hash)]
pub enum VertexField {
    F32,
    F32x2,
    F32x3,
    F32x4,
    U8x4,
}

/// The vertex format each supported field type maps to: floats stay floats,
/// and four bytes become a normalized four-byte vector.
pub open spec fn vertex_format_of(f: VertexField) -> VertexFormat {
    match f {
        VertexField::F32 => VertexFormat::Float,
        VertexField::F32x2 => VertexFormat::Float2,
        VertexField::F32x3 => VertexFormat::Float3,
        VertexField::F32x4 => VertexFormat::Float4,
        VertexField::U8x4 => VertexFormat::UByte4N,
    }
}

/// The vertex format of one field.
pub fn vertex_format(f: VertexField) -> (r: VertexFormat)
    ensures
        r == vertex_format_of(f),
{
    match f {
        VertexField::F32 => VertexFormat::Float,
        VertexField::F32x2 => VertexFormat::Float2,
        VertexField::F32x3 => VertexFormat::Float3,
        VertexField::F32x4 => VertexFormat::Float4,
        VertexField::U8x4 => VertexFormat::UByte4N,
    }
}

/// The attribute formats of a vertex layout, one per field, in field
/// order.
pub fn layout_formats(fields: &Vec<VertexField>) -> (v: Vec<VertexFormat>)
    ensures
        v@ == fields@.map_values(|f: VertexField| vertex_format_of(f)),
{
    let mut v: Vec<VertexFormat> = Vec::new();
    let n = fields.len();
    for i in 0..n
        invariant
            n == fields@.len(),
            v@ =~= fields@.subrange(0, i as int).map_values(
                |f: VertexField| vertex_format_of(f),
            ),
    {
        v.push(vertex_format(fields[i]));
        proof {
            assert(v@ =~= fields@.subrange(0, i + 1).map_values(
                |f: VertexField| vertex_format_of(f),
            ));
        }
    }
    proof {
        assert(fields@.subrange(0, n as int) =~= fields@);
    }
    v
}

} // verus!
