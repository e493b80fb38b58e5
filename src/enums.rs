//! Closed enumerations of the native API's symbolic values and their
//! translation into native constants. Every table is total, and within one
//! enumeration no two values share a constant.
use crate::native;
use vstd::prelude::*;

verus! {

/// Bits of the mask that `clear` takes.
pub struct Mask;

impl Mask {
    pub const COLOR_BUFFER_BIT: u32 = native::COLOR_BUFFER_BIT;
    pub const DEPTH_BUFFER_BIT: u32 = native::DEPTH_BUFFER_BIT;
    pub const STENCIL_BUFFER_BIT: u32 = native::STENCIL_BUFFER_BIT;
}

/// Comparison function of the depth test.
pub type DepthFunc = CompareFunc;

/// Comparison function of the stencil test.
pub type StencilFunc = CompareFunc;

/// Primitive kinds that a draw call assembles.
#[derive(Debug, Clone, Copy, PartialEq, Eq, Structural, PartialOrd, Ord, Hash)]
pub enum Mode {
    Points,
    LineStrip,
    LineLoop,
    Lines,
    LineStripAdjacency,
    LinesAdjacency,
    TriangleStrip,
    TriangleFan,
    Triangles,
    TriangleStripAdjacency,
    TrianglesAdjacency,
    Patches,
}

impl Mode {
    /// The native constant that stands for this value.
    pub open spec fn gl_mode(self) -> u32 {
        match self {
            Mode::Points => native::POINTS,
            Mode::LineStrip => native::LINE_STRIP,
            Mode::LineLoop => native::LINE_LOOP,
            Mode::Lines => native::LINES,
            Mode::LineStripAdjacency => native::LINE_STRIP_ADJACENCY,
            Mode::LinesAdjacency => native::LINES_ADJACENCY,
            Mode::TriangleStrip => native::TRIANGLE_STRIP,
            Mode::TriangleFan => native::TRIANGLE_FAN,
            Mode::Triangles => native::TRIANGLES,
            Mode::TriangleStripAdjacency => native::TRIANGLE_STRIP_ADJACENCY,
            Mode::TrianglesAdjacency => native::TRIANGLES_ADJACENCY,
            Mode::Patches => native::PATCHES,
        }
    }

    /// Translates this value into its native constant.
    pub fn to_gl_mode(self) -> (r: u32)
        ensures
            r == self.gl_mode(),
    {
        match self {
            Mode::Points => native::POINTS,
            Mode::LineStrip => native::LINE_STRIP,
            Mode::LineLoop => native::LINE_LOOP,
            Mode::Lines => native::LINES,
            Mode::LineStripAdjacency => native::LINE_STRIP_ADJACENCY,
            Mode::LinesAdjacency => native::LINES_ADJACENCY,
            Mode::TriangleStrip => native::TRIANGLE_STRIP,
            Mode::TriangleFan => native::TRIANGLE_FAN,
            Mode::Triangles => native::TRIANGLES,
            Mode::TriangleStripAdjacency => native::TRIANGLE_STRIP_ADJACENCY,
            Mode::TrianglesAdjacency => native::TRIANGLES_ADJACENCY,
            Mode::Patches => native::PATCHES,
        }
    }

    /// No two values share a native constant.
    pub proof fn lemma_gl_mode_injective(a: Self, b: Self)
        ensures
            a.gl_mode() == b.gl_mode() ==> a == b,
    {
    }
}

/// Capabilities that can be switched on and off in a context.
#[derive(Debug, Clone, Copy, PartialEq, Eq, Structural, PartialOrd, Ord, Hash)]
pub enum Cap {
    Blend,
    ClipDistance0,
    ClipDistance1,
    ClipDistance2,
    ClipDistance3,
    ClipDistance4,
    ClipDistance5,
    ClipDistance6,
    ClipDistance7,
    ColorLogicOp,
    CullFace,
    DebugOutput,
    DebugOutputSynchronous,
    DepthClamp,
    DepthTest,
    Dither,
    FramebufferSrgb,
    LineSmooth,
    Multisample,
    PolygonOffsetFill,
    PolygonOffsetLine,
    PolygonOffsetPoint,
    PolygonSmooth,
    PrimitiveRestart,
    PrimitiveRestartFixedIndex,
    RasterizerDiscard,
    SampleAlphaToCoverage,
    SampleAlphaToOne,
    SampleCoverage,
    SampleShading,
    SampleMask,
    ScissorTest,
    StencilTest,
    TextureCubeMapSeamless,
    ProgramPointSize,
}

impl Cap {
    /// The native constant that stands for this value.
    pub open spec fn gl_cap(self) -> u32 {
        match self {
            Cap::Blend => native::BLEND,
            Cap::ClipDistance0 => native::CLIP_DISTANCE0,
            Cap::ClipDistance1 => native::CLIP_DISTANCE1,
            Cap::ClipDistance2 => native::CLIP_DISTANCE2,
            Cap::ClipDistance3 => native::CLIP_DISTANCE3,
            Cap::ClipDistance4 => native::CLIP_DISTANCE4,
            Cap::ClipDistance5 => native::CLIP_DISTANCE5,
            Cap::ClipDistance6 => native::CLIP_DISTANCE6,
            Cap::ClipDistance7 => native::CLIP_DISTANCE7,
            Cap::ColorLogicOp => native::COLOR_LOGIC_OP,
            Cap::CullFace => native::CULL_FACE,
            Cap::DebugOutput => native::DEBUG_OUTPUT,
            Cap::DebugOutputSynchronous => native::DEBUG_OUTPUT_SYNCHRONOUS,
            Cap::DepthClamp => native::DEPTH_CLAMP,
            Cap::DepthTest => native::DEPTH_TEST,
            Cap::Dither => native::DITHER,
            Cap::FramebufferSrgb => native::FRAMEBUFFER_SRGB,
            Cap::LineSmooth => native::LINE_SMOOTH,
            Cap::Multisample => native::MULTISAMPLE,
            Cap::PolygonOffsetFill => native::POLYGON_OFFSET_FILL,
            Cap::PolygonOffsetLine => native::POLYGON_OFFSET_LINE,
            Cap::PolygonOffsetPoint => native::POLYGON_OFFSET_POINT,
            Cap::PolygonSmooth => native::POLYGON_SMOOTH,
            Cap::PrimitiveRestart => native::PRIMITIVE_RESTART,
            Cap::PrimitiveRestartFixedIndex => native::PRIMITIVE_RESTART_FIXED_INDEX,
            Cap::RasterizerDiscard => native::RASTERIZER_DISCARD,
            Cap::SampleAlphaToCoverage => native::SAMPLE_ALPHA_TO_COVERAGE,
            Cap::SampleAlphaToOne => native::SAMPLE_ALPHA_TO_ONE,
            Cap::SampleCoverage => native::SAMPLE_COVERAGE,
            Cap::SampleShading => native::SAMPLE_SHADING,
            Cap::SampleMask => native::SAMPLE_MASK,
            Cap::ScissorTest => native::SCISSOR_TEST,
            Cap::StencilTest => native::STENCIL_TEST,
            Cap::TextureCubeMapSeamless => native::TEXTURE_CUBE_MAP_SEAMLESS,
            Cap::ProgramPointSize => native::PROGRAM_POINT_SIZE,
        }
    }

    /// Translates this value into its native constant.
    pub fn to_gl_cap(self) -> (r: u32)
        ensures
            r == self.gl_cap(),
    {
        match self {
            Cap::Blend => native::BLEND,
            Cap::ClipDistance0 => native::CLIP_DISTANCE0,
            Cap::ClipDistance1 => native::CLIP_DISTANCE1,
            Cap::ClipDistance2 => native::CLIP_DISTANCE2,
            Cap::ClipDistance3 => native::CLIP_DISTANCE3,
            Cap::ClipDistance4 => native::CLIP_DISTANCE4,
            Cap::ClipDistance5 => native::CLIP_DISTANCE5,
            Cap::ClipDistance6 => native::CLIP_DISTANCE6,
            Cap::ClipDistance7 => native::CLIP_DISTANCE7,
            Cap::ColorLogicOp => native::COLOR_LOGIC_OP,
            Cap::CullFace => native::CULL_FACE,
            Cap::DebugOutput => native::DEBUG_OUTPUT,
            Cap::DebugOutputSynchronous => native::DEBUG_OUTPUT_SYNCHRONOUS,
            Cap::DepthClamp => native::DEPTH_CLAMP,
            Cap::DepthTest => native::DEPTH_TEST,
            Cap::Dither => native::DITHER,
            Cap::FramebufferSrgb => native::FRAMEBUFFER_SRGB,
            Cap::LineSmooth => native::LINE_SMOOTH,
            Cap::Multisample => native::MULTISAMPLE,
            Cap::PolygonOffsetFill => native::POLYGON_OFFSET_FILL,
            Cap::PolygonOffsetLine => native::POLYGON_OFFSET_LINE,
            Cap::PolygonOffsetPoint => native::POLYGON_OFFSET_POINT,
            Cap::PolygonSmooth => native::POLYGON_SMOOTH,
            Cap::PrimitiveRestart => native::PRIMITIVE_RESTART,
            Cap::PrimitiveRestartFixedIndex => native::PRIMITIVE_RESTART_FIXED_INDEX,
            Cap::RasterizerDiscard => native::RASTERIZER_DISCARD,
            Cap::SampleAlphaToCoverage => native::SAMPLE_ALPHA_TO_COVERAGE,
            Cap::SampleAlphaToOne => native::SAMPLE_ALPHA_TO_ONE,
            Cap::SampleCoverage => native::SAMPLE_COVERAGE,
            Cap::SampleShading => native::SAMPLE_SHADING,
            Cap::SampleMask => native::SAMPLE_MASK,
            Cap::ScissorTest => native::SCISSOR_TEST,
            Cap::StencilTest => native::STENCIL_TEST,
            Cap::TextureCubeMapSeamless => native::TEXTURE_CUBE_MAP_SEAMLESS,
            Cap::ProgramPointSize => native::PROGRAM_POINT_SIZE,
        }
    }

    /// No two values share a native constant.
    pub proof fn lemma_gl_cap_injective(a: Self, b: Self)
        ensures
            a.gl_cap() == b.gl_cap() ==> a == b,
    {
    }
}

/// Binding points of buffer objects.
#[derive(Debug, Clone, Copy, PartialEq, Eq, Structural, PartialOrd, Ord, Hash)]
pub enum Target {
    Array,
    AtomicCounter,
    CopyRead,
    CopyWrite,
    DispatchIndirect,
    DrawIndirect,
    ElementArray,
    PixelPack,
    PixelUnpack,
    Query,
    ShaderStorage,
    Texture,
    TransformFeedback,
    Uniform,
}

impl Target {
    /// The native constant that stands for this value.
    pub open spec fn gl_target(self) -> u32 {
        match self {
            Target::Array => native::ARRAY_BUFFER,
            Target::AtomicCounter => native::ATOMIC_COUNTER_BUFFER,
            Target::CopyRead => native::COPY_READ_BUFFER,
            Target::CopyWrite => native::COPY_WRITE_BUFFER,
            Target::DispatchIndirect => native::DISPATCH_INDIRECT_BUFFER,
            Target::DrawIndirect => native::DRAW_INDIRECT_BUFFER,
            Target::ElementArray => native::ELEMENT_ARRAY_BUFFER,
            Target::PixelPack => native::PIXEL_PACK_BUFFER,
            Target::PixelUnpack => native::PIXEL_UNPACK_BUFFER,
            Target::Query => native::QUERY_BUFFER,
            Target::ShaderStorage => native::SHADER_STORAGE_BUFFER,
            Target::Texture => native::TEXTURE_BUFFER,
            Target::TransformFeedback => native::TRANSFORM_FEEDBACK_BUFFER,
            Target::Uniform => native::UNIFORM_BUFFER,
        }
    }

    /// Translates this value into its native constant.
    pub fn to_gl_target(self) -> (r: u32)
        ensures
            r == self.gl_target(),
    {
        match self {
            Target::Array => native::ARRAY_BUFFER,
            Target::AtomicCounter => native::ATOMIC_COUNTER_BUFFER,
            Target::CopyRead => native::COPY_READ_BUFFER,
            Target::CopyWrite => native::COPY_WRITE_BUFFER,
            Target::DispatchIndirect => native::DISPATCH_INDIRECT_BUFFER,
            Target::DrawIndirect => native::DRAW_INDIRECT_BUFFER,
            Target::ElementArray => native::ELEMENT_ARRAY_BUFFER,
            Target::PixelPack => native::PIXEL_PACK_BUFFER,
            Target::PixelUnpack => native::PIXEL_UNPACK_BUFFER,
            Target::Query => native::QUERY_BUFFER,
            Target::ShaderStorage => native::SHADER_STORAGE_BUFFER,
            Target::Texture => native::TEXTURE_BUFFER,
            Target::TransformFeedback => native::TRANSFORM_FEEDBACK_BUFFER,
            Target::Uniform => native::UNIFORM_BUFFER,
        }
    }

    /// No two values share a native constant.
    pub proof fn lemma_gl_target_injective(a: Self, b: Self)
        ensures
            a.gl_target() == b.gl_target() ==> a == b,
    {
    }
}

/// Expected usage pattern of a buffer's data store.
#[derive(Debug, Clone, Copy, PartialEq, Eq, Structural, PartialOrd, Ord, Hash)]
pub enum Usage {
    StaticDraw,
    StaticRead,
    StaticCopy,
    StreamDraw,
    StreamRead,
    StreamCopy,
    DynamicDraw,
    DynamicRead,
    DynamicCopy,
}

impl Usage {
    /// The native constant that stands for this value.
    pub open spec fn gl_usage(self) -> u32 {
        match self {
            Usage::StaticDraw => native::STATIC_DRAW,
            Usage::StaticRead => native::STATIC_READ,
            Usage::StaticCopy => native::STATIC_COPY,
            Usage::StreamDraw => native::STREAM_DRAW,
            Usage::StreamRead => native::STREAM_READ,
            Usage::StreamCopy => native::STREAM_COPY,
            Usage::DynamicDraw => native::DYNAMIC_DRAW,
            Usage::DynamicRead => native::DYNAMIC_READ,
            Usage::DynamicCopy => native::DYNAMIC_COPY,
        }
    }

    /// Translates this value into its native constant.
    pub fn to_gl_usage(self) -> (r: u32)
        ensures
            r == self.gl_usage(),
    {
        match self {
            Usage::StaticDraw => native::STATIC_DRAW,
            Usage::StaticRead => native::STATIC_READ,
            Usage::StaticCopy => native::STATIC_COPY,
            Usage::StreamDraw => native::STREAM_DRAW,
            Usage::StreamRead => native::STREAM_READ,
            Usage::StreamCopy => native::STREAM_COPY,
            Usage::DynamicDraw => native::DYNAMIC_DRAW,
            Usage::DynamicRead => native::DYNAMIC_READ,
            Usage::DynamicCopy => native::DYNAMIC_COPY,
        }
    }

    /// No two values share a native constant.
    pub proof fn lemma_gl_usage_injective(a: Self, b: Self)
        ensures
            a.gl_usage() == b.gl_usage() ==> a == b,
    {
    }
}

/// Pipeline stages that a shader object can be compiled for.
#[derive(Debug, Clone, Copy, PartialEq, Eq, Structural, PartialOrd, Ord, Hash)]
pub enum ShaderType {
    Vertex,
    Fragmet,
    Geometry,
    TessControl,
    TessEvaluation,
    Compute,
}

impl ShaderType {
    /// The native constant that stands for this value.
    pub open spec fn gl_type(self) -> u32 {
        match self {
            ShaderType::Vertex => native::VERTEX_SHADER,
            ShaderType::Fragmet => native::FRAGMENT_SHADER,
            ShaderType::Geometry => native::GEOMETRY_SHADER,
            ShaderType::TessControl => native::TESS_CONTROL_SHADER,
            ShaderType::TessEvaluation => native::TESS_EVALUATION_SHADER,
            ShaderType::Compute => native::COMPUTE_SHADER,
        }
    }

    /// Translates this value into its native constant.
    pub fn to_gl_type(self) -> (r: u32)
        ensures
            r == self.gl_type(),
    {
        match self {
            ShaderType::Vertex => native::VERTEX_SHADER,
            ShaderType::Fragmet => native::FRAGMENT_SHADER,
            ShaderType::Geometry => native::GEOMETRY_SHADER,
            ShaderType::TessControl => native::TESS_CONTROL_SHADER,
            ShaderType::TessEvaluation => native::TESS_EVALUATION_SHADER,
            ShaderType::Compute => native::COMPUTE_SHADER,
        }
    }

    /// No two values share a native constant.
    pub proof fn lemma_gl_type_injective(a: Self, b: Self)
        ensures
            a.gl_type() == b.gl_type() ==> a == b,
    {
    }
}

/// Comparison functions of the depth and stencil tests and of texture comparison.
#[derive(Debug, Clone, Copy, PartialEq, Eq, Structural, PartialOrd, Ord, Hash)]
pub enum CompareFunc {
    LessEqual,
    GreaterEqual,
    Less,
    Greater,
    Equal,
    NotEqual,
    Always,
    Never,
}

impl CompareFunc {
    /// The native constant that stands for this value.
    pub open spec fn gl_func(self) -> u32 {
        match self {
            CompareFunc::LessEqual => native::LEQUAL,
            CompareFunc::GreaterEqual => native::GEQUAL,
            CompareFunc::Less => native::LESS,
            CompareFunc::Greater => native::GREATER,
            CompareFunc::Equal => native::EQUAL,
            CompareFunc::NotEqual => native::NOTEQUAL,
            CompareFunc::Always => native::ALWAYS,
            CompareFunc::Never => native::NEVER,
        }
    }

    /// Translates this value into its native constant.
    pub fn to_gl_func(self) -> (r: u32)
        ensures
            r == self.gl_func(),
    {
        match self {
            CompareFunc::LessEqual => native::LEQUAL,
            CompareFunc::GreaterEqual => native::GEQUAL,
            CompareFunc::Less => native::LESS,
            CompareFunc::Greater => native::GREATER,
            CompareFunc::Equal => native::EQUAL,
            CompareFunc::NotEqual => native::NOTEQUAL,
            CompareFunc::Always => native::ALWAYS,
            CompareFunc::Never => native::NEVER,
        }
    }

    /// No two values share a native constant.
    pub proof fn lemma_gl_func_injective(a: Self, b: Self)
        ensures
            a.gl_func() == b.gl_func() ==> a == b,
    {
    }
}

/// Binding points of texture objects.
#[derive(Debug, Clone, Copy, PartialEq, Eq, Structural, PartialOrd, Ord, Hash)]
pub enum TexTarget {
    Tex1D,
    Tex2D,
    Tex3D,
    Tex1DArray,
    Tex2DArray,
    TexRectangle,
    TexCubeMap,
    TexCubeMapArray,
    TexBuffer,
    Tex2DMultisample,
    Tex2DMultisampleArray,
}

impl TexTarget {
    /// The native constant that stands for this value.
    pub open spec fn gl_target(&self) -> u32 {
        match self {
            TexTarget::Tex1D => native::TEXTURE_1D,
            TexTarget::Tex2D => native::TEXTURE_2D,
            TexTarget::Tex3D => native::TEXTURE_3D,
            TexTarget::Tex1DArray => native::TEXTURE_1D_ARRAY,
            TexTarget::Tex2DArray => native::TEXTURE_2D_ARRAY,
            TexTarget::TexRectangle => native::TEXTURE_RECTANGLE,
            TexTarget::TexCubeMap => native::TEXTURE_CUBE_MAP,
            TexTarget::TexCubeMapArray => native::TEXTURE_CUBE_MAP_ARRAY,
            TexTarget::TexBuffer => native::TEXTURE_BUFFER,
            TexTarget::Tex2DMultisample => native::TEXTURE_2D_MULTISAMPLE,
            TexTarget::Tex2DMultisampleArray => native::TEXTURE_2D_MULTISAMPLE_ARRAY,
        }
    }

    /// Translates this value into its native constant.
    pub fn to_gl_target(&self) -> (r: u32)
        ensures
            r == self.gl_target(),
    {
        match self {
            TexTarget::Tex1D => native::TEXTURE_1D,
            TexTarget::Tex2D => native::TEXTURE_2D,
            TexTarget::Tex3D => native::TEXTURE_3D,
            TexTarget::Tex1DArray => native::TEXTURE_1D_ARRAY,
            TexTarget::Tex2DArray => native::TEXTURE_2D_ARRAY,
            TexTarget::TexRectangle => native::TEXTURE_RECTANGLE,
            TexTarget::TexCubeMap => native::TEXTURE_CUBE_MAP,
            TexTarget::TexCubeMapArray => native::TEXTURE_CUBE_MAP_ARRAY,
            TexTarget::TexBuffer => native::TEXTURE_BUFFER,
            TexTarget::Tex2DMultisample => native::TEXTURE_2D_MULTISAMPLE,
            TexTarget::Tex2DMultisampleArray => native::TEXTURE_2D_MULTISAMPLE_ARRAY,
        }
    }

    /// No two values share a native constant.
    pub proof fn lemma_gl_target_injective(a: Self, b: Self)
        ensures
            a.gl_target() == b.gl_target() ==> a == b,
    {
    }
}

/// Texture targets for which mipmaps can be generated.
#[derive(Debug, Clone, Copy, PartialEq, Eq, Structural, PartialOrd, Ord, Hash)]
pub enum MinmapTarget {
    Tex1D,
    Tex2D,
    Tex3D,
    Tex1DArray,
    Tex2DArray,
    TexCubeMap,
    TexCubeMapArray,
}

impl MinmapTarget {
    /// The native constant that stands for this value.
    pub open spec fn gl_target(&self) -> u32 {
        match self {
            MinmapTarget::Tex1D => native::TEXTURE_1D,
            MinmapTarget::Tex2D => native::TEXTURE_2D,
            MinmapTarget::Tex3D => native::TEXTURE_3D,
            MinmapTarget::Tex1DArray => native::TEXTURE_1D_ARRAY,
            MinmapTarget::Tex2DArray => native::TEXTURE_2D_ARRAY,
            MinmapTarget::TexCubeMap => native::TEXTURE_CUBE_MAP,
            MinmapTarget::TexCubeMapArray => native::TEXTURE_CUBE_MAP_ARRAY,
        }
    }

    /// Translates this value into its native constant.
    pub fn to_gl_target(&self) -> (r: u32)
        ensures
            r == self.gl_target(),
    {
        match self {
            MinmapTarget::Tex1D => native::TEXTURE_1D,
            MinmapTarget::Tex2D => native::TEXTURE_2D,
            MinmapTarget::Tex3D => native::TEXTURE_3D,
            MinmapTarget::Tex1DArray => native::TEXTURE_1D_ARRAY,
            MinmapTarget::Tex2DArray => native::TEXTURE_2D_ARRAY,
            MinmapTarget::TexCubeMap => native::TEXTURE_CUBE_MAP,
            MinmapTarget::TexCubeMapArray => native::TEXTURE_CUBE_MAP_ARRAY,
        }
    }

    /// No two values share a native constant.
    pub proof fn lemma_gl_target_injective(a: Self, b: Self)
        ensures
            a.gl_target() == b.gl_target() ==> a == b,
    {
    }
}

/// Targets of a two-dimensional texture image upload.
#[derive(Debug, Clone, Copy, PartialEq, Eq, Structural, PartialOrd, Ord, Hash)]
pub enum ImageTarget {
    Tex2d,
    ProxyTex2d,
    Tex1dArray,
    ProxyTex1dArray,
    TexRectangle,
    ProxyTexRectangle,
    TexCubeMapPositiveX,
    TexCubeMapNegativeX,
    TexCubeMapPositiveY,
    TexCubeMapNegativeY,
    TexCubeMapPositiveZ,
    TexCubeMapNegativeZ,
    ProxyTexCubeMap,
}

impl ImageTarget {
    /// The native constant that stands for this value.
    pub open spec fn gl_target(self) -> u32 {
        match self {
            ImageTarget::Tex2d => native::TEXTURE_2D,
            ImageTarget::ProxyTex2d => native::PROXY_TEXTURE_2D,
            ImageTarget::Tex1dArray => native::TEXTURE_1D_ARRAY,
            ImageTarget::ProxyTex1dArray => native::PROXY_TEXTURE_1D_ARRAY,
            ImageTarget::TexRectangle => native::TEXTURE_RECTANGLE,
            ImageTarget::ProxyTexRectangle => native::PROXY_TEXTURE_RECTANGLE,
            ImageTarget::TexCubeMapPositiveX => native::TEXTURE_CUBE_MAP_POSITIVE_X,
            ImageTarget::TexCubeMapNegativeX => native::TEXTURE_CUBE_MAP_NEGATIVE_X,
            ImageTarget::TexCubeMapPositiveY => native::TEXTURE_CUBE_MAP_POSITIVE_Y,
            ImageTarget::TexCubeMapNegativeY => native::TEXTURE_CUBE_MAP_NEGATIVE_Y,
            ImageTarget::TexCubeMapPositiveZ => native::TEXTURE_CUBE_MAP_POSITIVE_Z,
            ImageTarget::TexCubeMapNegativeZ => native::TEXTURE_CUBE_MAP_NEGATIVE_Z,
            ImageTarget::ProxyTexCubeMap => native::PROXY_TEXTURE_CUBE_MAP,
        }
    }

    /// Translates this value into its native constant.
    pub fn to_gl_target(self) -> (r: u32)
        ensures
            r == self.gl_target(),
    {
        match self {
            ImageTarget::Tex2d => native::TEXTURE_2D,
            ImageTarget::ProxyTex2d => native::PROXY_TEXTURE_2D,
            ImageTarget::Tex1dArray => native::TEXTURE_1D_ARRAY,
            ImageTarget::ProxyTex1dArray => native::PROXY_TEXTURE_1D_ARRAY,
            ImageTarget::TexRectangle => native::TEXTURE_RECTANGLE,
            ImageTarget::ProxyTexRectangle => native::PROXY_TEXTURE_RECTANGLE,
            ImageTarget::TexCubeMapPositiveX => native::TEXTURE_CUBE_MAP_POSITIVE_X,
            ImageTarget::TexCubeMapNegativeX => native::TEXTURE_CUBE_MAP_NEGATIVE_X,
            ImageTarget::TexCubeMapPositiveY => native::TEXTURE_CUBE_MAP_POSITIVE_Y,
            ImageTarget::TexCubeMapNegativeY => native::TEXTURE_CUBE_MAP_NEGATIVE_Y,
            ImageTarget::TexCubeMapPositiveZ => native::TEXTURE_CUBE_MAP_POSITIVE_Z,
            ImageTarget::TexCubeMapNegativeZ => native::TEXTURE_CUBE_MAP_NEGATIVE_Z,
            ImageTarget::ProxyTexCubeMap => native::PROXY_TEXTURE_CUBE_MAP,
        }
    }

    /// No two values share a native constant.
    pub proof fn lemma_gl_target_injective(a: Self, b: Self)
        ensures
            a.gl_target() == b.gl_target() ==> a == b,
    {
    }
}

/// Layout of the pixel data handed to an image upload.
#[derive(Debug, Clone, Copy, PartialEq, Eq, Structural, PartialOrd, Ord, Hash)]
pub enum ImageFormat {
    Red,
    RG,
    RGB,
    BGR,
    RGBA,
    BGRA,
    DepthComponent,
    DepthStencil,
}

impl ImageFormat {
    /// The native constant that stands for this value.
    pub open spec fn gl_format(self) -> u32 {
        match self {
            ImageFormat::Red => native::RED,
            ImageFormat::RG => native::RG,
            ImageFormat::RGB => native::RGB,
            ImageFormat::BGR => native::BGR,
            ImageFormat::RGBA => native::RGBA,
            ImageFormat::BGRA => native::BGRA,
            ImageFormat::DepthComponent => native::DEPTH_COMPONENT,
            ImageFormat::DepthStencil => native::DEPTH_STENCIL,
        }
    }

    /// Translates this value into its native constant.
    pub fn to_gl_format(self) -> (r: u32)
        ensures
            r == self.gl_format(),
    {
        match self {
            ImageFormat::Red => native::RED,
            ImageFormat::RG => native::RG,
            ImageFormat::RGB => native::RGB,
            ImageFormat::BGR => native::BGR,
            ImageFormat::RGBA => native::RGBA,
            ImageFormat::BGRA => native::BGRA,
            ImageFormat::DepthComponent => native::DEPTH_COMPONENT,
            ImageFormat::DepthStencil => native::DEPTH_STENCIL,
        }
    }

    /// No two values share a native constant.
    pub proof fn lemma_gl_format_injective(a: Self, b: Self)
        ensures
            a.gl_format() == b.gl_format() ==> a == b,
    {
    }
}

/// Base internal formats of a texture.
#[derive(Debug, Clone, Copy, PartialEq, Eq, Structural, PartialOrd, Ord, Hash)]
pub enum BaseFormat {
    Red,
    RG,
    RGB,
    RGBA,
    DepthComponent,
    DepthStencil,
}

impl BaseFormat {
    /// The native constant that stands for this value.
    pub open spec fn gl_format(self) -> u32 {
        match self {
            BaseFormat::Red => native::RED,
            BaseFormat::RG => native::RG,
            BaseFormat::RGB => native::RGB,
            BaseFormat::RGBA => native::RGBA,
            BaseFormat::DepthComponent => native::DEPTH_COMPONENT,
            BaseFormat::DepthStencil => native::DEPTH_STENCIL,
        }
    }

    /// Translates this value into its native constant.
    pub fn to_gl_format(self) -> (r: u32)
        ensures
            r == self.gl_format(),
    {
        match self {
            BaseFormat::Red => native::RED,
            BaseFormat::RG => native::RG,
            BaseFormat::RGB => native::RGB,
            BaseFormat::RGBA => native::RGBA,
            BaseFormat::DepthComponent => native::DEPTH_COMPONENT,
            BaseFormat::DepthStencil => native::DEPTH_STENCIL,
        }
    }

    /// No two values share a native constant.
    pub proof fn lemma_gl_format_injective(a: Self, b: Self)
        ensures
            a.gl_format() == b.gl_format() ==> a == b,
    {
    }
}

/// Sized internal formats of a texture.
#[allow(non_camel_case_types)]
#[derive(Debug, Clone, Copy, PartialEq, Eq, Structural, PartialOrd, Ord, Hash)]
pub enum SizedFormat {
    R8,
    R8_SNORM,
    R16,
    R16_SNORM,
    RG8,
    RG8_SNORM,
    RG16,
    RG16_SNORM,
    R3_G3_B2,
    RGB4,
    RGB5,
    RGB8,
    RGB8_SNORM,
    RGB10,
    RGB12,
    RGB16_SNORM,
    RGBA2,
    RGBA4,
    RGB5_A1,
    RGBA8,
    RGBA8_SNORM,
    RGB10_A2,
    RGB10_A2UI,
    RGBA12,
    RGBA16,
    SRGB8,
    SRGB8_ALPHA8,
    R16F,
    RG16F,
    RGB16F,
    RGBA16F,
    R32F,
    RG32F,
    RGB32F,
    RGBA32F,
    R11F_G11F_B10F,
    RGB9_E5,
    R8I,
    R8UI,
    R16I,
    R16UI,
    R32I,
    R32UI,
    RG8I,
    RG8UI,
    RG16I,
    RG16UI,
    RG32I,
    RG32UI,
    RGB8I,
    RGB8UI,
    RGB16I,
    RGB16UI,
    RGB32I,
    RGB32UI,
    RGBA8I,
    RGBA8UI,
    RGBA16I,
    RGBA16UI,
    RGBA32I,
    RGBA32UI,
}

impl SizedFormat {
    /// The native constant that stands for this value.
    pub open spec fn gl_format(self) -> u32 {
        match self {
            SizedFormat::R8 => native::R8,
            SizedFormat::R8_SNORM => native::R8_SNORM,
            SizedFormat::R16 => native::R16,
            SizedFormat::R16_SNORM => native::R16_SNORM,
            SizedFormat::RG8 => native::RG8,
            SizedFormat::RG8_SNORM => native::RG8_SNORM,
            SizedFormat::RG16 => native::RG16,
            SizedFormat::RG16_SNORM => native::RG16_SNORM,
            SizedFormat::R3_G3_B2 => native::R3_G3_B2,
            SizedFormat::RGB4 => native::RGB4,
            SizedFormat::RGB5 => native::RGB5,
            SizedFormat::RGB8 => native::RGB8,
            SizedFormat::RGB8_SNORM => native::RGB8_SNORM,
            SizedFormat::RGB10 => native::RGB10,
            SizedFormat::RGB12 => native::RGB12,
            SizedFormat::RGB16_SNORM => native::RGB16_SNORM,
            SizedFormat::RGBA2 => native::RGBA2,
            SizedFormat::RGBA4 => native::RGBA4,
            SizedFormat::RGB5_A1 => native::RGB5_A1,
            SizedFormat::RGBA8 => native::RGBA8,
            SizedFormat::RGBA8_SNORM => native::RGBA8_SNORM,
            SizedFormat::RGB10_A2 => native::RGB10_A2,
            SizedFormat::RGB10_A2UI => native::RGB10_A2UI,
            SizedFormat::RGBA12 => native::RGBA12,
            SizedFormat::RGBA16 => native::RGBA16,
            SizedFormat::SRGB8 => native::SRGB8,
            SizedFormat::SRGB8_ALPHA8 => native::SRGB8_ALPHA8,
            SizedFormat::R16F => native::R16F,
            SizedFormat::RG16F => native::RG16F,
            SizedFormat::RGB16F => native::RGB16F,
            SizedFormat::RGBA16F => native::RGBA16F,
            SizedFormat::R32F => native::R32F,
            SizedFormat::RG32F => native::RG32F,
            SizedFormat::RGB32F => native::RGB32F,
            SizedFormat::RGBA32F => native::RGBA32F,
            SizedFormat::R11F_G11F_B10F => native::R11F_G11F_B10F,
            SizedFormat::RGB9_E5 => native::RGB9_E5,
            SizedFormat::R8I => native::R8I,
            SizedFormat::R8UI => native::R8UI,
            SizedFormat::R16I => native::R16I,
            SizedFormat::R16UI => native::R16UI,
            SizedFormat::R32I => native::R32I,
            SizedFormat::R32UI => native::R32UI,
            SizedFormat::RG8I => native::RG8I,
            SizedFormat::RG8UI => native::RG8UI,
            SizedFormat::RG16I => native::RG16I,
            SizedFormat::RG16UI => native::RG16UI,
            SizedFormat::RG32I => native::RG32I,
            SizedFormat::RG32UI => native::RG32UI,
            SizedFormat::RGB8I => native::RGB8I,
            SizedFormat::RGB8UI => native::RGB8UI,
            SizedFormat::RGB16I => native::RGB16I,
            SizedFormat::RGB16UI => native::RGB16UI,
            SizedFormat::RGB32I => native::RGB32I,
            SizedFormat::RGB32UI => native::RGB32UI,
            SizedFormat::RGBA8I => native::RGBA8I,
            SizedFormat::RGBA8UI => native::RGBA8UI,
            SizedFormat::RGBA16I => native::RGBA16I,
            SizedFormat::RGBA16UI => native::RGBA16UI,
            SizedFormat::RGBA32I => native::RGBA32I,
            SizedFormat::RGBA32UI => native::RGBA32UI,
        }
    }

    /// Translates this value into its native constant.
    pub fn to_gl_format(self) -> (r: u32)
        ensures
            r == self.gl_format(),
    {
        match self {
            SizedFormat::R8 => native::R8,
            SizedFormat::R8_SNORM => native::R8_SNORM,
            SizedFormat::R16 => native::R16,
            SizedFormat::R16_SNORM => native::R16_SNORM,
            SizedFormat::RG8 => native::RG8,
            SizedFormat::RG8_SNORM => native::RG8_SNORM,
            SizedFormat::RG16 => native::RG16,
            SizedFormat::RG16_SNORM => native::RG16_SNORM,
            SizedFormat::R3_G3_B2 => native::R3_G3_B2,
            SizedFormat::RGB4 => native::RGB4,
            SizedFormat::RGB5 => native::RGB5,
            SizedFormat::RGB8 => native::RGB8,
            SizedFormat::RGB8_SNORM => native::RGB8_SNORM,
            SizedFormat::RGB10 => native::RGB10,
            SizedFormat::RGB12 => native::RGB12,
            SizedFormat::RGB16_SNORM => native::RGB16_SNORM,
            SizedFormat::RGBA2 => native::RGBA2,
            SizedFormat::RGBA4 => native::RGBA4,
            SizedFormat::RGB5_A1 => native::RGB5_A1,
            SizedFormat::RGBA8 => native::RGBA8,
            SizedFormat::RGBA8_SNORM => native::RGBA8_SNORM,
            SizedFormat::RGB10_A2 => native::RGB10_A2,
            SizedFormat::RGB10_A2UI => native::RGB10_A2UI,
            SizedFormat::RGBA12 => native::RGBA12,
            SizedFormat::RGBA16 => native::RGBA16,
            SizedFormat::SRGB8 => native::SRGB8,
            SizedFormat::SRGB8_ALPHA8 => native::SRGB8_ALPHA8,
            SizedFormat::R16F => native::R16F,
            SizedFormat::RG16F => native::RG16F,
            SizedFormat::RGB16F => native::RGB16F,
            SizedFormat::RGBA16F => native::RGBA16F,
            SizedFormat::R32F => native::R32F,
            SizedFormat::RG32F => native::RG32F,
            SizedFormat::RGB32F => native::RGB32F,
            SizedFormat::RGBA32F => native::RGBA32F,
            SizedFormat::R11F_G11F_B10F => native::R11F_G11F_B10F,
            SizedFormat::RGB9_E5 => native::RGB9_E5,
            SizedFormat::R8I => native::R8I,
            SizedFormat::R8UI => native::R8UI,
            SizedFormat::R16I => native::R16I,
            SizedFormat::R16UI => native::R16UI,
            SizedFormat::R32I => native::R32I,
            SizedFormat::R32UI => native::R32UI,
            SizedFormat::RG8I => native::RG8I,
            SizedFormat::RG8UI => native::RG8UI,
            SizedFormat::RG16I => native::RG16I,
            SizedFormat::RG16UI => native::RG16UI,
            SizedFormat::RG32I => native::RG32I,
            SizedFormat::RG32UI => native::RG32UI,
            SizedFormat::RGB8I => native::RGB8I,
            SizedFormat::RGB8UI => native::RGB8UI,
            SizedFormat::RGB16I => native::RGB16I,
            SizedFormat::RGB16UI => native::RGB16UI,
            SizedFormat::RGB32I => native::RGB32I,
            SizedFormat::RGB32UI => native::RGB32UI,
            SizedFormat::RGBA8I => native::RGBA8I,
            SizedFormat::RGBA8UI => native::RGBA8UI,
            SizedFormat::RGBA16I => native::RGBA16I,
            SizedFormat::RGBA16UI => native::RGBA16UI,
            SizedFormat::RGBA32I => native::RGBA32I,
            SizedFormat::RGBA32UI => native::RGBA32UI,
        }
    }

    /// No two values share a native constant.
    pub proof fn lemma_gl_format_injective(a: Self, b: Self)
        ensures
            a.gl_format() == b.gl_format() ==> a == b,
    {
    }
}

/// Compressed internal formats of a texture.
#[allow(non_camel_case_types)]
#[derive(Debug, Clone, Copy, PartialEq, Eq, Structural, PartialOrd, Ord, Hash)]
pub enum CompressedFormat {
    RED,
    RG,
    RGB,
    RGBA,
    SRGB,
    SRGB_ALPHA,
    RED_RGTC1,
    SIGNED_RED_RGTC1,
    RG_RGTC2,
    SIGNED_RG_RGTC2,
    RGBA_BPTC_UNORM,
    SRGB_ALPHA_BPTC_UNORM,
    RGB_BPTC_SIGNED_FLOAT,
    RGB_BPTC_UNSIGNED_FLOAT,
}

impl CompressedFormat {
    /// The native constant that stands for this value.
    pub open spec fn gl_format(self) -> u32 {
        match self {
            CompressedFormat::RED => native::COMPRESSED_RED,
            CompressedFormat::RG => native::COMPRESSED_RG,
            CompressedFormat::RGB => native::COMPRESSED_RGB,
            CompressedFormat::RGBA => native::COMPRESSED_RGBA,
            CompressedFormat::SRGB => native::COMPRESSED_SRGB,
            CompressedFormat::SRGB_ALPHA => native::COMPRESSED_SRGB_ALPHA,
            CompressedFormat::RED_RGTC1 => native::COMPRESSED_RED_RGTC1,
            CompressedFormat::SIGNED_RED_RGTC1 => native::COMPRESSED_SIGNED_RED_RGTC1,
            CompressedFormat::RG_RGTC2 => native::COMPRESSED_RG_RGTC2,
            CompressedFormat::SIGNED_RG_RGTC2 => native::COMPRESSED_SIGNED_RG_RGTC2,
            CompressedFormat::RGBA_BPTC_UNORM => native::COMPRESSED_RGBA_BPTC_UNORM,
            CompressedFormat::SRGB_ALPHA_BPTC_UNORM => native::COMPRESSED_SRGB_ALPHA_BPTC_UNORM,
            CompressedFormat::RGB_BPTC_SIGNED_FLOAT => native::COMPRESSED_RGB_BPTC_SIGNED_FLOAT,
            CompressedFormat::RGB_BPTC_UNSIGNED_FLOAT => native::COMPRESSED_RGB_BPTC_UNSIGNED_FLOAT,
        }
    }

    /// Translates this value into its native constant.
    pub fn to_gl_format(self) -> (r: u32)
        ensures
            r == self.gl_format(),
    {
        match self {
            CompressedFormat::RED => native::COMPRESSED_RED,
            CompressedFormat::RG => native::COMPRESSED_RG,
            CompressedFormat::RGB => native::COMPRESSED_RGB,
            CompressedFormat::RGBA => native::COMPRESSED_RGBA,
            CompressedFormat::SRGB => native::COMPRESSED_SRGB,
            CompressedFormat::SRGB_ALPHA => native::COMPRESSED_SRGB_ALPHA,
            CompressedFormat::RED_RGTC1 => native::COMPRESSED_RED_RGTC1,
            CompressedFormat::SIGNED_RED_RGTC1 => native::COMPRESSED_SIGNED_RED_RGTC1,
            CompressedFormat::RG_RGTC2 => native::COMPRESSED_RG_RGTC2,
            CompressedFormat::SIGNED_RG_RGTC2 => native::COMPRESSED_SIGNED_RG_RGTC2,
            CompressedFormat::RGBA_BPTC_UNORM => native::COMPRESSED_RGBA_BPTC_UNORM,
            CompressedFormat::SRGB_ALPHA_BPTC_UNORM => native::COMPRESSED_SRGB_ALPHA_BPTC_UNORM,
            CompressedFormat::RGB_BPTC_SIGNED_FLOAT => native::COMPRESSED_RGB_BPTC_SIGNED_FLOAT,
            CompressedFormat::RGB_BPTC_UNSIGNED_FLOAT => native::COMPRESSED_RGB_BPTC_UNSIGNED_FLOAT,
        }
    }

    /// No two values share a native constant.
    pub proof fn lemma_gl_format_injective(a: Self, b: Self)
        ensures
            a.gl_format() == b.gl_format() ==> a == b,
    {
    }
}

/// Data types of the pixels handed to an image upload.
#[allow(non_camel_case_types)]
#[derive(Debug, Clone, Copy, PartialEq, Eq, Structural, PartialOrd, Ord, Hash)]
pub enum PixelDataType {
    u8,
    i8,
    u16,
    i16,
    u32,
    i32,
    F32,
    HalfFloat,
    u8_3_3_2,
    u8_2_3_3_REV,
    u16_5_6_5,
    u16_5_6_5_REV,
    u16_4_4_4_4,
    u16_4_4_4_4_REV,
    u16_5_5_5_1,
    u16_1_5_5_5_REV,
    u32_8_8_8_8,
    u32_8_8_8_8_REV,
    u32_10_10_10_2,
    u32_2_10_10_10_REV,
}

impl PixelDataType {
    /// The native constant that stands for this value.
    pub open spec fn gl_type(self) -> u32 {
        match self {
            PixelDataType::u8 => native::UNSIGNED_BYTE,
            PixelDataType::i8 => native::BYTE,
            PixelDataType::u16 => native::UNSIGNED_SHORT,
            PixelDataType::i16 => native::SHORT,
            PixelDataType::u32 => native::UNSIGNED_INT,
            PixelDataType::i32 => native::INT,
            PixelDataType::F32 => native::FLOAT,
            PixelDataType::HalfFloat => native::HALF_FLOAT,
            PixelDataType::u8_3_3_2 => native::UNSIGNED_BYTE_3_3_2,
            PixelDataType::u8_2_3_3_REV => native::UNSIGNED_BYTE_2_3_3_REV,
            PixelDataType::u16_5_6_5 => native::UNSIGNED_SHORT_5_6_5,
            PixelDataType::u16_5_6_5_REV => native::UNSIGNED_SHORT_5_6_5_REV,
            PixelDataType::u16_4_4_4_4 => native::UNSIGNED_SHORT_4_4_4_4,
            PixelDataType::u16_4_4_4_4_REV => native::UNSIGNED_SHORT_4_4_4_4_REV,
            PixelDataType::u16_5_5_5_1 => native::UNSIGNED_SHORT_5_5_5_1,
            PixelDataType::u16_1_5_5_5_REV => native::UNSIGNED_SHORT_1_5_5_5_REV,
            PixelDataType::u32_8_8_8_8 => native::UNSIGNED_INT_8_8_8_8,
            PixelDataType::u32_8_8_8_8_REV => native::UNSIGNED_INT_8_8_8_8_REV,
            PixelDataType::u32_10_10_10_2 => native::UNSIGNED_INT_10_10_10_2,
            PixelDataType::u32_2_10_10_10_REV => native::UNSIGNED_INT_2_10_10_10_REV,
        }
    }

    /// Translates this value into its native constant.
    pub fn to_gl_type(self) -> (r: u32)
        ensures
            r == self.gl_type(),
    {
        match self {
            PixelDataType::u8 => native::UNSIGNED_BYTE,
            PixelDataType::i8 => native::BYTE,
            PixelDataType::u16 => native::UNSIGNED_SHORT,
            PixelDataType::i16 => native::SHORT,
            PixelDataType::u32 => native::UNSIGNED_INT,
            PixelDataType::i32 => native::INT,
            PixelDataType::F32 => native::FLOAT,
            PixelDataType::HalfFloat => native::HALF_FLOAT,
            PixelDataType::u8_3_3_2 => native::UNSIGNED_BYTE_3_3_2,
            PixelDataType::u8_2_3_3_REV => native::UNSIGNED_BYTE_2_3_3_REV,
            PixelDataType::u16_5_6_5 => native::UNSIGNED_SHORT_5_6_5,
            PixelDataType::u16_5_6_5_REV => native::UNSIGNED_SHORT_5_6_5_REV,
            PixelDataType::u16_4_4_4_4 => native::UNSIGNED_SHORT_4_4_4_4,
            PixelDataType::u16_4_4_4_4_REV => native::UNSIGNED_SHORT_4_4_4_4_REV,
            PixelDataType::u16_5_5_5_1 => native::UNSIGNED_SHORT_5_5_5_1,
            PixelDataType::u16_1_5_5_5_REV => native::UNSIGNED_SHORT_1_5_5_5_REV,
            PixelDataType::u32_8_8_8_8 => native::UNSIGNED_INT_8_8_8_8,
            PixelDataType::u32_8_8_8_8_REV => native::UNSIGNED_INT_8_8_8_8_REV,
            PixelDataType::u32_10_10_10_2 => native::UNSIGNED_INT_10_10_10_2,
            PixelDataType::u32_2_10_10_10_REV => native::UNSIGNED_INT_2_10_10_10_REV,
        }
    }

    /// No two values share a native constant.
    pub proof fn lemma_gl_type_injective(a: Self, b: Self)
        ensures
            a.gl_type() == b.gl_type() ==> a == b,
    {
    }
}

/// Actions of the stencil test.
#[derive(Debug, Clone, Copy, PartialEq, Eq, Structural, PartialOrd, Ord, Hash)]
pub enum StencilOp {
    Keep,
    Zero,
    Replace,
    Incr,
    IncrWrap,
    Decr,
    DecrWrap,
    Invert,
}

impl StencilOp {
    /// The native constant that stands for this value.
    pub open spec fn gl_op(self) -> u32 {
        match self {
            StencilOp::Keep => native::KEEP,
            StencilOp::Zero => native::ZERO,
            StencilOp::Replace => native::REPLACE,
            StencilOp::Incr => native::INCR,
            StencilOp::IncrWrap => native::INCR_WRAP,
            StencilOp::Decr => native::DECR,
            StencilOp::DecrWrap => native::DECR_WRAP,
            StencilOp::Invert => native::INVERT,
        }
    }

    /// Translates this value into its native constant.
    pub fn to_gl_op(self) -> (r: u32)
        ensures
            r == self.gl_op(),
    {
        match self {
            StencilOp::Keep => native::KEEP,
            StencilOp::Zero => native::ZERO,
            StencilOp::Replace => native::REPLACE,
            StencilOp::Incr => native::INCR,
            StencilOp::IncrWrap => native::INCR_WRAP,
            StencilOp::Decr => native::DECR,
            StencilOp::DecrWrap => native::DECR_WRAP,
            StencilOp::Invert => native::INVERT,
        }
    }

    /// No two values share a native constant.
    pub proof fn lemma_gl_op_injective(a: Self, b: Self)
        ensures
            a.gl_op() == b.gl_op() ==> a == b,
    {
    }
}

/// Source and destination factors of blending.
#[derive(Debug, Clone, Copy, PartialEq, Eq, Structural, PartialOrd, Ord, Hash)]
pub enum BlendFactor {
    Zero,
    One,
    SrcColor,
    OneMinusSrcColor,
    DstColor,
    OneMinusDstColor,
    SrcAlpha,
    OneMinusSrcAlpha,
    DstAlpha,
    OneMinusDstAlpha,
    ConstantColor,
    OneMinusConstantColor,
    ConstantAlpha,
    OneMinusConstantAlpha,
}

impl BlendFactor {
    /// The native constant that stands for this value.
    pub open spec fn gl_func(self) -> u32 {
        match self {
            BlendFactor::Zero => native::ZERO,
            BlendFactor::One => native::ONE,
            BlendFactor::SrcColor => native::SRC_COLOR,
            BlendFactor::OneMinusSrcColor => native::ONE_MINUS_SRC_COLOR,
            BlendFactor::DstColor => native::DST_COLOR,
            BlendFactor::OneMinusDstColor => native::ONE_MINUS_DST_COLOR,
            BlendFactor::SrcAlpha => native::SRC_ALPHA,
            BlendFactor::OneMinusSrcAlpha => native::ONE_MINUS_SRC_ALPHA,
            BlendFactor::DstAlpha => native::DST_ALPHA,
            BlendFactor::OneMinusDstAlpha => native::ONE_MINUS_DST_ALPHA,
            BlendFactor::ConstantColor => native::CONSTANT_COLOR,
            BlendFactor::OneMinusConstantColor => native::ONE_MINUS_CONSTANT_COLOR,
            BlendFactor::ConstantAlpha => native::CONSTANT_ALPHA,
            BlendFactor::OneMinusConstantAlpha => native::ONE_MINUS_CONSTANT_ALPHA,
        }
    }

    /// Translates this value into its native constant.
    pub fn to_gl_func(self) -> (r: u32)
        ensures
            r == self.gl_func(),
    {
        match self {
            BlendFactor::Zero => native::ZERO,
            BlendFactor::One => native::ONE,
            BlendFactor::SrcColor => native::SRC_COLOR,
            BlendFactor::OneMinusSrcColor => native::ONE_MINUS_SRC_COLOR,
            BlendFactor::DstColor => native::DST_COLOR,
            BlendFactor::OneMinusDstColor => native::ONE_MINUS_DST_COLOR,
            BlendFactor::SrcAlpha => native::SRC_ALPHA,
            BlendFactor::OneMinusSrcAlpha => native::ONE_MINUS_SRC_ALPHA,
            BlendFactor::DstAlpha => native::DST_ALPHA,
            BlendFactor::OneMinusDstAlpha => native::ONE_MINUS_DST_ALPHA,
            BlendFactor::ConstantColor => native::CONSTANT_COLOR,
            BlendFactor::OneMinusConstantColor => native::ONE_MINUS_CONSTANT_COLOR,
            BlendFactor::ConstantAlpha => native::CONSTANT_ALPHA,
            BlendFactor::OneMinusConstantAlpha => native::ONE_MINUS_CONSTANT_ALPHA,
        }
    }

    /// No two values share a native constant.
    pub proof fn lemma_gl_func_injective(a: Self, b: Self)
        ensures
            a.gl_func() == b.gl_func() ==> a == b,
    {
    }
}

/// Equations that combine source and destination colours.
#[derive(Debug, Clone, Copy, PartialEq, Eq, Structural, PartialOrd, Ord, Hash)]
pub enum BlendEquation {
    FuncAdd,
    FuncSubtract,
    FuncReverseSubtract,
    Min,
    Max,
}

impl BlendEquation {
    /// The native constant that stands for this value.
    pub open spec fn gl_equation(self) -> u32 {
        match self {
            BlendEquation::FuncAdd => native::FUNC_ADD,
            BlendEquation::FuncSubtract => native::FUNC_SUBTRACT,
            BlendEquation::FuncReverseSubtract => native::FUNC_REVERSE_SUBTRACT,
            BlendEquation::Min => native::MIN,
            BlendEquation::Max => native::MAX,
        }
    }

    /// Translates this value into its native constant.
    pub fn to_gl_equation(self) -> (r: u32)
        ensures
            r == self.gl_equation(),
    {
        match self {
            BlendEquation::FuncAdd => native::FUNC_ADD,
            BlendEquation::FuncSubtract => native::FUNC_SUBTRACT,
            BlendEquation::FuncReverseSubtract => native::FUNC_REVERSE_SUBTRACT,
            BlendEquation::Min => native::MIN,
            BlendEquation::Max => native::MAX,
        }
    }

    /// No two values share a native constant.
    pub proof fn lemma_gl_equation_injective(a: Self, b: Self)
        ensures
            a.gl_equation() == b.gl_equation() ==> a == b,
    {
    }
}

/// Faces that face culling discards.
#[derive(Debug, Clone, Copy, PartialEq, Eq, Structural, PartialOrd, Ord, Hash)]
pub enum CullFace {
    Front,
    Back,
    FrontAndBack,
}

impl CullFace {
    /// The native constant that stands for this value.
    pub open spec fn gl_face(self) -> u32 {
        match self {
            CullFace::Front => native::FRONT,
            CullFace::Back => native::BACK,
            CullFace::FrontAndBack => native::FRONT_AND_BACK,
        }
    }

    /// Translates this value into its native constant.
    pub fn to_gl_face(self) -> (r: u32)
        ensures
            r == self.gl_face(),
    {
        match self {
            CullFace::Front => native::FRONT,
            CullFace::Back => native::BACK,
            CullFace::FrontAndBack => native::FRONT_AND_BACK,
        }
    }

    /// No two values share a native constant.
    pub proof fn lemma_gl_face_injective(a: Self, b: Self)
        ensures
            a.gl_face() == b.gl_face() ==> a == b,
    {
    }
}

/// Winding order that makes a polygon front-facing.
#[derive(Debug, Clone, Copy, PartialEq, Eq, Structural, PartialOrd, Ord, Hash)]
pub enum FrontFace {
    Clockwise,
    CounterClockwise,
}

impl FrontFace {
    /// The native constant that stands for this value.
    pub open spec fn gl_face(self) -> u32 {
        match self {
            FrontFace::Clockwise => native::CW,
            FrontFace::CounterClockwise => native::CCW,
        }
    }

    /// Translates this value into its native constant.
    pub fn to_gl_face(self) -> (r: u32)
        ensures
            r == self.gl_face(),
    {
        match self {
            FrontFace::Clockwise => native::CW,
            FrontFace::CounterClockwise => native::CCW,
        }
    }

    /// No two values share a native constant.
    pub proof fn lemma_gl_face_injective(a: Self, b: Self)
        ensures
            a.gl_face() == b.gl_face() ==> a == b,
    {
    }
}

/// Binding points of framebuffer objects.
#[derive(Debug, Clone, Copy, PartialEq, Eq, Structural, PartialOrd, Ord, Hash)]
pub enum FrameBufferTarget {
    Read,
    Draw,
    ReadDraw,
}

impl FrameBufferTarget {
    /// The native constant that stands for this value.
    pub open spec fn gl_target(self) -> u32 {
        match self {
            FrameBufferTarget::Read => native::READ_FRAMEBUFFER,
            FrameBufferTarget::Draw => native::DRAW_FRAMEBUFFER,
            FrameBufferTarget::ReadDraw => native::FRAMEBUFFER,
        }
    }

    /// Translates this value into its native constant.
    pub fn to_gl_target(self) -> (r: u32)
        ensures
            r == self.gl_target(),
    {
        match self {
            FrameBufferTarget::Read => native::READ_FRAMEBUFFER,
            FrameBufferTarget::Draw => native::DRAW_FRAMEBUFFER,
            FrameBufferTarget::ReadDraw => native::FRAMEBUFFER,
        }
    }

    /// No two values share a native constant.
    pub proof fn lemma_gl_target_injective(a: Self, b: Self)
        ensures
            a.gl_target() == b.gl_target() ==> a == b,
    {
    }
}

/// Attachment points of a framebuffer.
#[derive(Debug, Clone, Copy, PartialEq, Eq, Structural, PartialOrd, Ord, Hash)]
pub enum FrameBufferAttachment {
    Color,
    Depth,
    Stencil,
    DepthStencil,
}

impl FrameBufferAttachment {
    /// The native constant that stands for this value.
    pub open spec fn gl_attachment(self) -> u32 {
        match self {
            FrameBufferAttachment::Color => native::COLOR_ATTACHMENT0,
            FrameBufferAttachment::Depth => native::DEPTH_ATTACHMENT,
            FrameBufferAttachment::Stencil => native::STENCIL_ATTACHMENT,
            FrameBufferAttachment::DepthStencil => native::DEPTH_STENCIL_ATTACHMENT,
        }
    }

    /// Translates this value into its native constant.
    pub fn to_gl_attachment(self) -> (r: u32)
        ensures
            r == self.gl_attachment(),
    {
        match self {
            FrameBufferAttachment::Color => native::COLOR_ATTACHMENT0,
            FrameBufferAttachment::Depth => native::DEPTH_ATTACHMENT,
            FrameBufferAttachment::Stencil => native::STENCIL_ATTACHMENT,
            FrameBufferAttachment::DepthStencil => native::DEPTH_STENCIL_ATTACHMENT,
        }
    }

    /// No two values share a native constant.
    pub proof fn lemma_gl_attachment_injective(a: Self, b: Self)
        ensures
            a.gl_attachment() == b.gl_attachment() ==> a == b,
    {
    }
}

/// Texture targets that a framebuffer attachment can name.
#[derive(Debug, Clone, Copy, PartialEq, Eq, Structural, PartialOrd, Ord, Hash)]
pub enum TextureTarget {
    Tex2d,
    Tex2dMultisample,
    TexCubeMapPositiveX,
    TexCubeMapNegativeX,
    TexCubeMapPositiveY,
    TexCubeMapNegativeY,
    TexCubeMapPositiveZ,
    TexCubeMapNegativeZ,
}

impl TextureTarget {
    /// The native constant that stands for this value.
    pub open spec fn gl_enum(self) -> u32 {
        match self {
            TextureTarget::Tex2d => native::TEXTURE_2D,
            TextureTarget::Tex2dMultisample => native::TEXTURE_2D_MULTISAMPLE,
            TextureTarget::TexCubeMapPositiveX => native::TEXTURE_CUBE_MAP_POSITIVE_X,
            TextureTarget::TexCubeMapNegativeX => native::TEXTURE_CUBE_MAP_NEGATIVE_X,
            TextureTarget::TexCubeMapPositiveY => native::TEXTURE_CUBE_MAP_POSITIVE_Y,
            TextureTarget::TexCubeMapNegativeY => native::TEXTURE_CUBE_MAP_NEGATIVE_Y,
            TextureTarget::TexCubeMapPositiveZ => native::TEXTURE_CUBE_MAP_POSITIVE_Z,
            TextureTarget::TexCubeMapNegativeZ => native::TEXTURE_CUBE_MAP_NEGATIVE_Z,
        }
    }

    /// Translates this value into its native constant.
    pub fn to_gl_enum(self) -> (r: u32)
        ensures
            r == self.gl_enum(),
    {
        match self {
            TextureTarget::Tex2d => native::TEXTURE_2D,
            TextureTarget::Tex2dMultisample => native::TEXTURE_2D_MULTISAMPLE,
            TextureTarget::TexCubeMapPositiveX => native::TEXTURE_CUBE_MAP_POSITIVE_X,
            TextureTarget::TexCubeMapNegativeX => native::TEXTURE_CUBE_MAP_NEGATIVE_X,
            TextureTarget::TexCubeMapPositiveY => native::TEXTURE_CUBE_MAP_POSITIVE_Y,
            TextureTarget::TexCubeMapNegativeY => native::TEXTURE_CUBE_MAP_NEGATIVE_Y,
            TextureTarget::TexCubeMapPositiveZ => native::TEXTURE_CUBE_MAP_POSITIVE_Z,
            TextureTarget::TexCubeMapNegativeZ => native::TEXTURE_CUBE_MAP_NEGATIVE_Z,
        }
    }

    /// No two values share a native constant.
    pub proof fn lemma_gl_enum_injective(a: Self, b: Self)
        ensures
            a.gl_enum() == b.gl_enum() ==> a == b,
    {
    }
}

/// Internal formats of a renderbuffer's storage.
#[allow(non_camel_case_types)]
#[derive(Debug, Clone, Copy, PartialEq, Eq, Structural, PartialOrd, Ord, Hash)]
pub enum RenderBufferFormat {
    R8,
    R8UI,
    R8I,
    R16UI,
    R16I,
    R32UI,
    R32I,
    RG8,
    RG8UI,
    RG8I,
    RG16UI,
    RG16I,
    RG32UI,
    RG32I,
    RGB8,
    RGB565,
    RGBA8,
    SRGB8_ALPHA8,
    RGB5_A1,
    RGBA4,
    RGB10_A2,
    RGBA8UI,
    RGBA8I,
    RGB10_A2UI,
    RGBA16UI,
    RGBA16I,
    RGBA32I,
    RGBA32UI,
    DEPTH_COMPONENT16,
    DEPTH_COMPONENT24,
    DEPTH_COMPONENT32F,
    DEPTH24_STENCIL8,
    DEPTH32F_STENCIL8,
    STENCIL_INDEX,
}

impl RenderBufferFormat {
    /// The native constant that stands for this value.
    pub open spec fn gl_format(self) -> u32 {
        match self {
            RenderBufferFormat::R8 => native::R8,
            RenderBufferFormat::R8UI => native::R8UI,
            RenderBufferFormat::R8I => native::R8I,
            RenderBufferFormat::R16UI => native::R16UI,
            RenderBufferFormat::R16I => native::R16I,
            RenderBufferFormat::R32UI => native::R32UI,
            RenderBufferFormat::R32I => native::R32I,
            RenderBufferFormat::RG8 => native::RG8,
            RenderBufferFormat::RG8UI => native::RG8UI,
            RenderBufferFormat::RG8I => native::RG8I,
            RenderBufferFormat::RG16UI => native::RG16UI,
            RenderBufferFormat::RG16I => native::RG16I,
            RenderBufferFormat::RG32UI => native::RG32UI,
            RenderBufferFormat::RG32I => native::RG32I,
            RenderBufferFormat::RGB8 => native::RGB8,
            RenderBufferFormat::RGB565 => native::RGB565,
            RenderBufferFormat::RGBA8 => native::RGBA8,
            RenderBufferFormat::SRGB8_ALPHA8 => native::SRGB8_ALPHA8,
            RenderBufferFormat::RGB5_A1 => native::RGB5_A1,
            RenderBufferFormat::RGBA4 => native::RGBA4,
            RenderBufferFormat::RGB10_A2 => native::RGB10_A2,
            RenderBufferFormat::RGBA8UI => native::RGBA8UI,
            RenderBufferFormat::RGBA8I => native::RGBA8I,
            RenderBufferFormat::RGB10_A2UI => native::RGB10_A2UI,
            RenderBufferFormat::RGBA16UI => native::RGBA16UI,
            RenderBufferFormat::RGBA16I => native::RGBA16I,
            RenderBufferFormat::RGBA32I => native::RGBA32I,
            RenderBufferFormat::RGBA32UI => native::RGBA32UI,
            RenderBufferFormat::DEPTH_COMPONENT16 => native::DEPTH_COMPONENT16,
            RenderBufferFormat::DEPTH_COMPONENT24 => native::DEPTH_COMPONENT24,
            RenderBufferFormat::DEPTH_COMPONENT32F => native::DEPTH_COMPONENT32F,
            RenderBufferFormat::DEPTH24_STENCIL8 => native::DEPTH24_STENCIL8,
            RenderBufferFormat::DEPTH32F_STENCIL8 => native::DEPTH32F_STENCIL8,
            RenderBufferFormat::STENCIL_INDEX => native::STENCIL_INDEX,
        }
    }

    /// Translates this value into its native constant.
    pub fn to_gl_format(self) -> (r: u32)
        ensures
            r == self.gl_format(),
    {
        match self {
            RenderBufferFormat::R8 => native::R8,
            RenderBufferFormat::R8UI => native::R8UI,
            RenderBufferFormat::R8I => native::R8I,
            RenderBufferFormat::R16UI => native::R16UI,
            RenderBufferFormat::R16I => native::R16I,
            RenderBufferFormat::R32UI => native::R32UI,
            RenderBufferFormat::R32I => native::R32I,
            RenderBufferFormat::RG8 => native::RG8,
            RenderBufferFormat::RG8UI => native::RG8UI,
            RenderBufferFormat::RG8I => native::RG8I,
            RenderBufferFormat::RG16UI => native::RG16UI,
            RenderBufferFormat::RG16I => native::RG16I,
            RenderBufferFormat::RG32UI => native::RG32UI,
            RenderBufferFormat::RG32I => native::RG32I,
            RenderBufferFormat::RGB8 => native::RGB8,
            RenderBufferFormat::RGB565 => native::RGB565,
            RenderBufferFormat::RGBA8 => native::RGBA8,
            RenderBufferFormat::SRGB8_ALPHA8 => native::SRGB8_ALPHA8,
            RenderBufferFormat::RGB5_A1 => native::RGB5_A1,
            RenderBufferFormat::RGBA4 => native::RGBA4,
            RenderBufferFormat::RGB10_A2 => native::RGB10_A2,
            RenderBufferFormat::RGBA8UI => native::RGBA8UI,
            RenderBufferFormat::RGBA8I => native::RGBA8I,
            RenderBufferFormat::RGB10_A2UI => native::RGB10_A2UI,
            RenderBufferFormat::RGBA16UI => native::RGBA16UI,
            RenderBufferFormat::RGBA16I => native::RGBA16I,
            RenderBufferFormat::RGBA32I => native::RGBA32I,
            RenderBufferFormat::RGBA32UI => native::RGBA32UI,
            RenderBufferFormat::DEPTH_COMPONENT16 => native::DEPTH_COMPONENT16,
            RenderBufferFormat::DEPTH_COMPONENT24 => native::DEPTH_COMPONENT24,
            RenderBufferFormat::DEPTH_COMPONENT32F => native::DEPTH_COMPONENT32F,
            RenderBufferFormat::DEPTH24_STENCIL8 => native::DEPTH24_STENCIL8,
            RenderBufferFormat::DEPTH32F_STENCIL8 => native::DEPTH32F_STENCIL8,
            RenderBufferFormat::STENCIL_INDEX => native::STENCIL_INDEX,
        }
    }

    /// No two values share a native constant.
    pub proof fn lemma_gl_format_injective(a: Self, b: Self)
        ensures
            a.gl_format() == b.gl_format() ==> a == b,
    {
    }
}

/// Internal formats of a texture image.
#[derive(Debug, Clone, Copy, PartialEq, Eq, Structural, PartialOrd, Ord, Hash)]
pub enum InternalFormat {
    Base(BaseFormat),
    Sized(SizedFormat),
    Compressed(CompressedFormat),
}

impl InternalFormat {
    /// The native constant that stands for this value.
    pub open spec fn gl_format(self) -> u32 {
        match self {
            InternalFormat::Base(f) => f.gl_format(),
            InternalFormat::Sized(f) => f.gl_format(),
            InternalFormat::Compressed(f) => f.gl_format(),
        }
    }

    /// Translates this value into its native constant.
    pub fn to_gl_format(self) -> (r: u32)
        ensures
            r == self.gl_format(),
    {
        match self {
            InternalFormat::Base(f) => f.to_gl_format(),
            InternalFormat::Sized(f) => f.to_gl_format(),
            InternalFormat::Compressed(f) => f.to_gl_format(),
        }
    }
}

/// Attachment points of a framebuffer, with the colour attachments numbered.
#[derive(Debug, Clone, Copy, PartialEq, Eq, Structural, PartialOrd, Ord, Hash)]
pub enum Attachmect {
    Color(u32),
    Depth,
    Stencil,
    DepthStencil,
}

/// The number of colour attachment points that have a constant of their own.
pub const COLOR_ATTACHMENT_POINTS: u32 = 32;

impl Attachmect {
    /// The native constant can be formed without leaving `u32`.
    pub open spec fn representable(self) -> bool {
        match self {
            Attachmect::Color(index) => index <= u32::MAX - native::COLOR_ATTACHMENT0,
            _ => true,
        }
    }

    /// The native constant that stands for this value.
    pub open spec fn gl_attachment(self) -> u32
        recommends
            self.representable(),
    {
        match self {
            Attachmect::Color(index) => (native::COLOR_ATTACHMENT0 + index) as u32,
            Attachmect::Depth => native::DEPTH_ATTACHMENT,
            Attachmect::Stencil => native::STENCIL_ATTACHMENT,
            Attachmect::DepthStencil => native::DEPTH_STENCIL_ATTACHMENT,
        }
    }

    /// Translates this value into its native constant.
    pub fn to_gl_attachment(self) -> (r: u32)
        requires
            self.representable(),
        ensures
            r == self.gl_attachment(),
    {
        match self {
            Attachmect::Color(index) => native::COLOR_ATTACHMENT0 + index,
            Attachmect::Depth => native::DEPTH_ATTACHMENT,
            Attachmect::Stencil => native::STENCIL_ATTACHMENT,
            Attachmect::DepthStencil => native::DEPTH_STENCIL_ATTACHMENT,
        }
    }

    /// No two attachment points with a constant of their own share one.
    pub proof fn lemma_gl_attachment_injective(a: Self, b: Self)
        requires
            a matches Attachmect::Color(i) ==> i < COLOR_ATTACHMENT_POINTS,
            b matches Attachmect::Color(j) ==> j < COLOR_ATTACHMENT_POINTS,
        ensures
            a.gl_attachment() == b.gl_attachment() ==> a == b,
    {
    }
}

/// Scalar kinds of vertex attributes and index data.
#[allow(non_camel_case_types)]
#[derive(Debug, Clone, Copy, PartialEq, Eq, Structural, PartialOrd, Ord, Hash)]
pub enum GlType {
    u8,
    i8,
    u16,
    i16,
    u32,
    i32,
    F32,
    F64,
}

impl GlType {
    /// The size of one scalar of this kind, in bytes.
    pub open spec fn byte_size(self) -> nat {
        match self {
            GlType::u8 => 1,
            GlType::i8 => 1,
            GlType::u16 => 2,
            GlType::i16 => 2,
            GlType::u32 => 4,
            GlType::i32 => 4,
            GlType::F32 => 4,
            GlType::F64 => 8,
        }
    }

    /// The size of one scalar of this kind, in bytes.
    pub fn size(self) -> (r: usize)
        ensures
            r == self.byte_size(),
            1 <= r <= 8,
    {
        match self {
            GlType::u8 => 1,
            GlType::i8 => 1,
            GlType::u16 => 2,
            GlType::i16 => 2,
            GlType::u32 => 4,
            GlType::i32 => 4,
            GlType::F32 => 4,
            GlType::F64 => 8,
        }
    }

    /// The native constant that stands for this value.
    pub open spec fn gl_type(self) -> u32 {
        match self {
            GlType::u8 => native::UNSIGNED_BYTE,
            GlType::i8 => native::BYTE,
            GlType::u16 => native::UNSIGNED_SHORT,
            GlType::i16 => native::SHORT,
            GlType::u32 => native::UNSIGNED_INT,
            GlType::i32 => native::INT,
            GlType::F32 => native::FLOAT,
            GlType::F64 => native::DOUBLE,
        }
    }

    /// Translates this value into its native constant.
    pub fn to_gl_type(self) -> (r: u32)
        ensures
            r == self.gl_type(),
    {
        match self {
            GlType::u8 => native::UNSIGNED_BYTE,
            GlType::i8 => native::BYTE,
            GlType::u16 => native::UNSIGNED_SHORT,
            GlType::i16 => native::SHORT,
            GlType::u32 => native::UNSIGNED_INT,
            GlType::i32 => native::INT,
            GlType::F32 => native::FLOAT,
            GlType::F64 => native::DOUBLE,
        }
    }

    /// No two values share a native constant.
    pub proof fn lemma_gl_type_injective(a: Self, b: Self)
        ensures
            a.gl_type() == b.gl_type() ==> a == b,
    {
    }
}

/// Sampling filters.
#[derive(Debug, Clone, Copy, PartialEq, Eq, Structural, PartialOrd, Ord, Hash)]
pub enum Filter {
    Nearest,
    Linear,
}

impl Filter {
    /// The native constant that stands for this value.
    pub open spec fn gl_filter(self) -> u32 {
        match self {
            Filter::Nearest => native::NEAREST,
            Filter::Linear => native::LINEAR,
        }
    }

    /// Translates this value into its native constant.
    pub fn to_gl_filter(self) -> (r: u32)
        ensures
            r == self.gl_filter(),
    {
        match self {
            Filter::Nearest => native::NEAREST,
            Filter::Linear => native::LINEAR,
        }
    }
}

/// The six faces of a cube map, in the order in which images are uploaded.
pub open spec fn cube_face(i: nat) -> Option<ImageTarget> {
    if i == 0 {
        Some(ImageTarget::TexCubeMapPositiveX)
    } else if i == 1 {
        Some(ImageTarget::TexCubeMapNegativeX)
    } else if i == 2 {
        Some(ImageTarget::TexCubeMapPositiveY)
    } else if i == 3 {
        Some(ImageTarget::TexCubeMapNegativeY)
    } else if i == 4 {
        Some(ImageTarget::TexCubeMapPositiveZ)
    } else if i == 5 {
        Some(ImageTarget::TexCubeMapNegativeZ)
    } else {
        None
    }
}

/// Walks the six faces of a cube map once.
pub struct TexCubeMap {
    index: u8,
}

impl View for TexCubeMap {
    /// How many faces have been handed out.
    type V = nat;

    closed spec fn view(&self) -> nat {
        self.index as nat
    }
}

impl TexCubeMap {
    /// Starts before the first face.
    pub fn new() -> (r: Self)
        ensures
            r@ == 0,
    {
        Self { index: 0 }
    }

    /// Hands out the next face, or `None` once all six have been handed out.
    pub fn next(&mut self) -> (r: Option<ImageTarget>)
        ensures
            r == cube_face(old(self)@),
            old(self)@ < 6 ==> final(self)@ == old(self)@ + 1,
            old(self)@ >= 6 ==> final(self)@ == old(self)@,
    {
        let face = if self.index == 0 {
            Some(ImageTarget::TexCubeMapPositiveX)
        } else if self.index == 1 {
            Some(ImageTarget::TexCubeMapNegativeX)
        } else if self.index == 2 {
            Some(ImageTarget::TexCubeMapPositiveY)
        } else if self.index == 3 {
            Some(ImageTarget::TexCubeMapNegativeY)
        } else if self.index == 4 {
            Some(ImageTarget::TexCubeMapPositiveZ)
        } else if self.index == 5 {
            Some(ImageTarget::TexCubeMapNegativeZ)
        } else {
            None
        };
        if self.index < 6 {
            self.index = self.index + 1;
        }
        face
    }
}

} // verus!
