//! The declarative-API value types and their immediate-mode translations.
//!
//! Each enum mirrors one notion of the declarative API; each `to_gl` function
//! computes the corresponding immediate-mode constant, pinned down exactly by
//! a spec function of the same shape.

use vstd::prelude::*;

use crate::gl;

verus! {

/// Primitive topology for rendering.
#[derive(Clone, Copy, Debug, PartialEq, Eq, Structural)]
pub enum PrimitiveTopology {
    PointList,
    LineList,
    LineStrip,
    TriangleList,
    TriangleStrip,
}

/// The immediate-mode draw mode of a topology.
pub open spec fn spec_topology_gl(t: PrimitiveTopology) -> u32 {
    match t {
        PrimitiveTopology::PointList => gl::POINTS,
        PrimitiveTopology::LineList => gl::LINES,
        PrimitiveTopology::LineStrip => gl::LINE_STRIP,
        PrimitiveTopology::TriangleList => gl::TRIANGLES,
        PrimitiveTopology::TriangleStrip => gl::TRIANGLE_STRIP,
    }
}

impl PrimitiveTopology {
    /// The immediate-mode draw mode.
    pub fn to_gl(self) -> (r: u32)
        ensures
            r == spec_topology_gl(self),
    {
        match self {
            PrimitiveTopology::PointList => gl::POINTS,
            PrimitiveTopology::LineList => gl::LINES,
            PrimitiveTopology::LineStrip => gl::LINE_STRIP,
            PrimitiveTopology::TriangleList => gl::TRIANGLES,
            PrimitiveTopology::TriangleStrip => gl::TRIANGLE_STRIP,
        }
    }
}

/// Index format for indexed draws.
#[derive(Clone, Copy, Debug, PartialEq, Eq, Structural)]
pub enum IndexFormat {
    Uint16,
    Uint32,
}

/// The immediate-mode element kind of an index format.
pub open spec fn spec_index_format_gl(f: IndexFormat) -> u32 {
    match f {
        IndexFormat::Uint16 => gl::UNSIGNED_SHORT,
        IndexFormat::Uint32 => gl::UNSIGNED_INT,
    }
}

/// The size in bytes of one index.
pub open spec fn spec_index_format_byte_size(f: IndexFormat) -> u32 {
    match f {
        IndexFormat::Uint16 => 2,
        IndexFormat::Uint32 => 4,
    }
}

impl IndexFormat {
    /// The immediate-mode element kind.
    pub fn to_gl(self) -> (r: u32)
        ensures
            r == spec_index_format_gl(self),
    {
        match self {
            IndexFormat::Uint16 => gl::UNSIGNED_SHORT,
            IndexFormat::Uint32 => gl::UNSIGNED_INT,
        }
    }

    /// The size in bytes of one index.
    pub fn byte_size(self) -> (r: u32)
        ensures
            r == spec_index_format_byte_size(self),
    {
        match self {
            IndexFormat::Uint16 => 2,
            IndexFormat::Uint32 => 4,
        }
    }
}

/// Load operation of a render-pass attachment.
#[derive(Clone, Copy, Debug, PartialEq, Eq, Structural)]
pub enum LoadOp {
    Clear,
    Load,
}

/// Store operation of a render-pass attachment.
#[derive(Clone, Copy, Debug, PartialEq, Eq, Structural)]
pub enum StoreOp {
    Store,
    Discard,
}

/// Shader stage.
#[derive(Clone, Copy, Debug, PartialEq, Eq, Structural)]
pub enum ShaderStage {
    Vertex,
    Fragment,
    Compute,
}

/// A numeric code for a stage, used where a spec speaks of the stage as a
/// plain value.
pub open spec fn spec_stage_code(s: ShaderStage) -> u32 {
    match s {
        ShaderStage::Vertex => 0,
        ShaderStage::Fragment => 1,
        ShaderStage::Compute => 2,
    }
}

/// Cull mode for rasterization.
#[derive(Clone, Copy, Debug, PartialEq, Eq, Structural)]
pub enum CullMode {
    NoCulling,
    Front,
    Back,
}

/// The immediate-mode cull face, if culling is on at all.
pub open spec fn spec_cull_mode_gl(c: CullMode) -> Option<u32> {
    match c {
        CullMode::NoCulling => None,
        CullMode::Front => Some(gl::FRONT),
        CullMode::Back => Some(gl::BACK),
    }
}

impl CullMode {
    /// The immediate-mode cull face, if culling is on at all.
    pub fn to_gl(self) -> (r: Option<u32>)
        ensures
            r == spec_cull_mode_gl(self),
    {
        match self {
            CullMode::NoCulling => None,
            CullMode::Front => Some(gl::FRONT),
            CullMode::Back => Some(gl::BACK),
        }
    }
}

/// Front-face winding order.
#[derive(Clone, Copy, Debug, PartialEq, Eq, Structural)]
pub enum FrontFace {
    Ccw,
    Cw,
}

/// The immediate-mode winding order.
pub open spec fn spec_front_face_gl(f: FrontFace) -> u32 {
    match f {
        FrontFace::Ccw => gl::CCW,
        FrontFace::Cw => gl::CW,
    }
}

impl FrontFace {
    /// The immediate-mode winding order.
    pub fn to_gl(self) -> (r: u32)
        ensures
            r == spec_front_face_gl(self),
    {
        match self {
            FrontFace::Ccw => gl::CCW,
            FrontFace::Cw => gl::CW,
        }
    }
}

/// Compare function for depth tests.
#[derive(Clone, Copy, Debug, PartialEq, Eq, Structural)]
pub enum CompareFunction {
    Never,
    Less,
    Equal,
    LessEqual,
    Greater,
    NotEqual,
    GreaterEqual,
    Always,
}

/// The immediate-mode depth function.
pub open spec fn spec_compare_function_gl(f: CompareFunction) -> u32 {
    match f {
        CompareFunction::Never => gl::NEVER,
        CompareFunction::Less => gl::LESS,
        CompareFunction::Equal => gl::EQUAL,
        CompareFunction::LessEqual => gl::LEQUAL,
        CompareFunction::Greater => gl::GREATER,
        CompareFunction::NotEqual => gl::NOTEQUAL,
        CompareFunction::GreaterEqual => gl::GEQUAL,
        CompareFunction::Always => gl::ALWAYS,
    }
}

impl CompareFunction {
    /// The immediate-mode depth function.
    pub fn to_gl(self) -> (r: u32)
        ensures
            r == spec_compare_function_gl(self),
    {
        match self {
            CompareFunction::Never => gl::NEVER,
            CompareFunction::Less => gl::LESS,
            CompareFunction::Equal => gl::EQUAL,
            CompareFunction::LessEqual => gl::LEQUAL,
            CompareFunction::Greater => gl::GREATER,
            CompareFunction::NotEqual => gl::NOTEQUAL,
            CompareFunction::GreaterEqual => gl::GEQUAL,
            CompareFunction::Always => gl::ALWAYS,
        }
    }
}

/// Blend factor of the declarative API.
#[derive(Clone, Copy, Debug, PartialEq, Eq, Structural)]
pub enum BlendFactor {
    Zero,
    One,
    Src,
    OneMinusSrc,
    SrcAlpha,
    OneMinusSrcAlpha,
    Dst,
    OneMinusDst,
    DstAlpha,
    OneMinusDstAlpha,
    SrcAlphaSaturated,
    Constant,
    OneMinusConstant,
}

/// The immediate-mode blend factor.
pub open spec fn spec_blend_factor_gl(f: BlendFactor) -> u32 {
    match f {
        BlendFactor::Zero => gl::ZERO,
        BlendFactor::One => gl::ONE,
        BlendFactor::Src => gl::SRC_COLOR,
        BlendFactor::OneMinusSrc => gl::ONE_MINUS_SRC_COLOR,
        BlendFactor::SrcAlpha => gl::SRC_ALPHA,
        BlendFactor::OneMinusSrcAlpha => gl::ONE_MINUS_SRC_ALPHA,
        BlendFactor::Dst => gl::DST_COLOR,
        BlendFactor::OneMinusDst => gl::ONE_MINUS_DST_COLOR,
        BlendFactor::DstAlpha => gl::DST_ALPHA,
        BlendFactor::OneMinusDstAlpha => gl::ONE_MINUS_DST_ALPHA,
        BlendFactor::SrcAlphaSaturated => gl::SRC_ALPHA_SATURATE,
        BlendFactor::Constant => gl::CONSTANT_COLOR,
        BlendFactor::OneMinusConstant => gl::ONE_MINUS_CONSTANT_COLOR,
    }
}

impl BlendFactor {
    /// The immediate-mode blend factor.
    pub fn to_gl(self) -> (r: u32)
        ensures
            r == spec_blend_factor_gl(self),
    {
        match self {
            BlendFactor::Zero => gl::ZERO,
            BlendFactor::One => gl::ONE,
            BlendFactor::Src => gl::SRC_COLOR,
            BlendFactor::OneMinusSrc => gl::ONE_MINUS_SRC_COLOR,
            BlendFactor::SrcAlpha => gl::SRC_ALPHA,
            BlendFactor::OneMinusSrcAlpha => gl::ONE_MINUS_SRC_ALPHA,
            BlendFactor::Dst => gl::DST_COLOR,
            BlendFactor::OneMinusDst => gl::ONE_MINUS_DST_COLOR,
            BlendFactor::DstAlpha => gl::DST_ALPHA,
            BlendFactor::OneMinusDstAlpha => gl::ONE_MINUS_DST_ALPHA,
            BlendFactor::SrcAlphaSaturated => gl::SRC_ALPHA_SATURATE,
            BlendFactor::Constant => gl::CONSTANT_COLOR,
            BlendFactor::OneMinusConstant => gl::ONE_MINUS_CONSTANT_COLOR,
        }
    }
}

impl Default for BlendFactor {
    /// The default factor is `Zero`.
    fn default() -> (r: Self)
        ensures
            r == BlendFactor::Zero,
    {
        BlendFactor::Zero
    }
}

/// Blend operation of the declarative API.
#[derive(Clone, Copy, Debug, PartialEq, Eq, Structural)]
pub enum BlendOperation {
    Add,
    Subtract,
    ReverseSubtract,
    Min,
    Max,
}

/// The immediate-mode blend equation.
pub open spec fn spec_blend_operation_gl(o: BlendOperation) -> u32 {
    match o {
        BlendOperation::Add => gl::FUNC_ADD,
        BlendOperation::Subtract => gl::FUNC_SUBTRACT,
        BlendOperation::ReverseSubtract => gl::FUNC_REVERSE_SUBTRACT,
        BlendOperation::Min => gl::MIN,
        BlendOperation::Max => gl::MAX,
    }
}

impl BlendOperation {
    /// The immediate-mode blend equation.
    pub fn to_gl(self) -> (r: u32)
        ensures
            r == spec_blend_operation_gl(self),
    {
        match self {
            BlendOperation::Add => gl::FUNC_ADD,
            BlendOperation::Subtract => gl::FUNC_SUBTRACT,
            BlendOperation::ReverseSubtract => gl::FUNC_REVERSE_SUBTRACT,
            BlendOperation::Min => gl::MIN,
            BlendOperation::Max => gl::MAX,
        }
    }
}

impl Default for BlendOperation {
    /// The default operation is `Add`.
    fn default() -> (r: Self)
        ensures
            r == BlendOperation::Add,
    {
        BlendOperation::Add
    }
}

/// How one channel group (color or alpha) blends.
#[derive(Clone, Copy, Debug, PartialEq, Eq, Structural)]
pub struct BlendComponent {
    pub operation: BlendOperation,
    pub src_factor: BlendFactor,
    pub dst_factor: BlendFactor,
}

impl BlendComponent {
    /// Build a blend component.
    pub fn new(operation: BlendOperation, src_factor: BlendFactor, dst_factor: BlendFactor) -> (r:
        BlendComponent)
        ensures
            r == (BlendComponent { operation, src_factor, dst_factor }),
    {
        BlendComponent { operation, src_factor, dst_factor }
    }
}

/// Blending of one color attachment.
#[derive(Clone, Copy, Debug, PartialEq, Eq, Structural)]
pub struct BlendState {
    pub color: BlendComponent,
    pub alpha: BlendComponent,
}

/// Whether a blend state does anything beyond overwriting: it is off exactly
/// when both channel groups use source-times-one plus destination-times-zero.
pub open spec fn spec_blend_enabled(b: BlendState) -> bool {
    !(b.color.src_factor == BlendFactor::One && b.color.dst_factor == BlendFactor::Zero
        && b.alpha.src_factor == BlendFactor::One && b.alpha.dst_factor == BlendFactor::Zero)
}

impl BlendState {
    /// Build a blend state from its six parts.
    pub fn new(
        color_op: BlendOperation,
        color_src: BlendFactor,
        color_dst: BlendFactor,
        alpha_op: BlendOperation,
        alpha_src: BlendFactor,
        alpha_dst: BlendFactor,
    ) -> (r: BlendState)
        ensures
            r.color == (BlendComponent {
                operation: color_op,
                src_factor: color_src,
                dst_factor: color_dst,
            }),
            r.alpha == (BlendComponent {
                operation: alpha_op,
                src_factor: alpha_src,
                dst_factor: alpha_dst,
            }),
    {
        BlendState {
            color: BlendComponent {
                operation: color_op,
                src_factor: color_src,
                dst_factor: color_dst,
            },
            alpha: BlendComponent {
                operation: alpha_op,
                src_factor: alpha_src,
                dst_factor: alpha_dst,
            },
        }
    }

    /// Whether this state does anything beyond overwriting.
    pub fn is_enabled(&self) -> (r: bool)
        ensures
            r == spec_blend_enabled(*self),
    {
        !(self.color.src_factor == BlendFactor::One && self.color.dst_factor == BlendFactor::Zero
            && self.alpha.src_factor == BlendFactor::One && self.alpha.dst_factor
            == BlendFactor::Zero)
    }
}

/// Address mode for texture sampling.
#[derive(Clone, Copy, Debug, PartialEq, Eq, Structural)]
pub enum AddressMode {
    ClampToEdge,
    Repeat,
    MirrorRepeat,
}

/// The immediate-mode wrap value.
pub open spec fn spec_address_mode_gl(m: AddressMode) -> u32 {
    match m {
        AddressMode::ClampToEdge => gl::CLAMP_TO_EDGE,
        AddressMode::Repeat => gl::REPEAT,
        AddressMode::MirrorRepeat => gl::MIRRORED_REPEAT,
    }
}

impl AddressMode {
    /// The immediate-mode wrap value.
    pub fn to_gl(self) -> (r: u32)
        ensures
            r == spec_address_mode_gl(self),
    {
        match self {
            AddressMode::ClampToEdge => gl::CLAMP_TO_EDGE,
            AddressMode::Repeat => gl::REPEAT,
            AddressMode::MirrorRepeat => gl::MIRRORED_REPEAT,
        }
    }
}

/// Filter mode for texture sampling.
#[derive(Clone, Copy, Debug, PartialEq, Eq, Structural)]
pub enum FilterMode {
    Nearest,
    Linear,
}

/// Mipmap filter mode.
#[derive(Clone, Copy, Debug, PartialEq, Eq, Structural)]
pub enum MipmapFilterMode {
    Nearest,
    Linear,
}

/// The immediate-mode magnification filter.
pub open spec fn spec_filter_mode_gl_mag(f: FilterMode) -> u32 {
    match f {
        FilterMode::Nearest => gl::NEAREST,
        FilterMode::Linear => gl::LINEAR,
    }
}

/// The immediate-mode minification filter combined with the mipmap mode.
pub open spec fn spec_filter_mode_gl_min(f: FilterMode, mipmap: MipmapFilterMode) -> u32 {
    match (f, mipmap) {
        (FilterMode::Nearest, MipmapFilterMode::Nearest) => gl::NEAREST_MIPMAP_NEAREST,
        (FilterMode::Nearest, MipmapFilterMode::Linear) => gl::NEAREST_MIPMAP_LINEAR,
        (FilterMode::Linear, MipmapFilterMode::Nearest) => gl::LINEAR_MIPMAP_NEAREST,
        (FilterMode::Linear, MipmapFilterMode::Linear) => gl::LINEAR_MIPMAP_LINEAR,
    }
}

impl FilterMode {
    /// The immediate-mode magnification filter.
    pub fn to_gl_mag(self) -> (r: u32)
        ensures
            r == spec_filter_mode_gl_mag(self),
    {
        match self {
            FilterMode::Nearest => gl::NEAREST,
            FilterMode::Linear => gl::LINEAR,
        }
    }

    /// The immediate-mode minification filter combined with the mipmap mode.
    pub fn to_gl_min(self, mipmap: MipmapFilterMode) -> (r: u32)
        ensures
            r == spec_filter_mode_gl_min(self, mipmap),
    {
        match (self, mipmap) {
            (FilterMode::Nearest, MipmapFilterMode::Nearest) => gl::NEAREST_MIPMAP_NEAREST,
            (FilterMode::Nearest, MipmapFilterMode::Linear) => gl::NEAREST_MIPMAP_LINEAR,
            (FilterMode::Linear, MipmapFilterMode::Nearest) => gl::LINEAR_MIPMAP_NEAREST,
            (FilterMode::Linear, MipmapFilterMode::Linear) => gl::LINEAR_MIPMAP_LINEAR,
        }
    }
}

/// Compare function for depth sampling; `NoCompare` means regular sampling.
#[derive(Clone, Copy, Debug, PartialEq, Eq, Structural)]
pub enum SamplerCompareFunction {
    NoCompare,
    Never,
    Less,
    Equal,
    LessEqual,
    Greater,
    NotEqual,
    GreaterEqual,
    Always,
}

/// The immediate-mode compare function, if comparison sampling is on.
pub open spec fn spec_sampler_compare_gl(f: SamplerCompareFunction) -> Option<u32> {
    match f {
        SamplerCompareFunction::NoCompare => None,
        SamplerCompareFunction::Never => Some(gl::NEVER),
        SamplerCompareFunction::Less => Some(gl::LESS),
        SamplerCompareFunction::Equal => Some(gl::EQUAL),
        SamplerCompareFunction::LessEqual => Some(gl::LEQUAL),
        SamplerCompareFunction::Greater => Some(gl::GREATER),
        SamplerCompareFunction::NotEqual => Some(gl::NOTEQUAL),
        SamplerCompareFunction::GreaterEqual => Some(gl::GEQUAL),
        SamplerCompareFunction::Always => Some(gl::ALWAYS),
    }
}

impl SamplerCompareFunction {
    /// The immediate-mode compare function, if comparison sampling is on.
    pub fn to_gl(self) -> (r: Option<u32>)
        ensures
            r == spec_sampler_compare_gl(self),
    {
        match self {
            SamplerCompareFunction::NoCompare => None,
            SamplerCompareFunction::Never => Some(gl::NEVER),
            SamplerCompareFunction::Less => Some(gl::LESS),
            SamplerCompareFunction::Equal => Some(gl::EQUAL),
            SamplerCompareFunction::LessEqual => Some(gl::LEQUAL),
            SamplerCompareFunction::Greater => Some(gl::GREATER),
            SamplerCompareFunction::NotEqual => Some(gl::NOTEQUAL),
            SamplerCompareFunction::GreaterEqual => Some(gl::GEQUAL),
            SamplerCompareFunction::Always => Some(gl::ALWAYS),
        }
    }
}

/// Texture dimension.
#[derive(Clone, Copy, Debug, PartialEq, Eq, Structural)]
pub enum TextureDimension {
    D1,
    D2,
    D3,
}

/// Texture view dimension.
#[derive(Clone, Copy, Debug, PartialEq, Eq, Structural)]
pub enum TextureViewDimension {
    D1,
    D2,
    D2Array,
    Cube,
    CubeArray,
    D3,
}

} // verus!
