//! Texture parameters and the (name, value) pairs they are set as.
use crate::enums::CompareFunc;
use crate::native;
use vstd::prelude::*;

verus! {

/// What a depth-stencil texture hands to a sampler.
#[derive(Debug, Clone, Copy, PartialEq, Eq, Structural, PartialOrd, Ord, Hash)]
pub enum DepthMode {
    Component,
    Index,
}

/// Texture comparison modes.
#[derive(Debug, Clone, Copy, PartialEq, Eq, Structural, PartialOrd, Ord, Hash)]
pub enum CompareMode {
    CompareRefToTexture,
    NoCompare,
}

/// Texture minification filters.
#[derive(Debug, Clone, Copy, PartialEq, Eq, Structural, PartialOrd, Ord, Hash)]
pub enum MinFilter {
    Nearest,
    Linear,
    NearestMipmapNearest,
    LinearMipmapNearest,
    NearestMipmapLinear,
    LinearMipmapLinear,
}

/// Texture magnification filters.
#[derive(Debug, Clone, Copy, PartialEq, Eq, Structural, PartialOrd, Ord, Hash)]
pub enum MagFilter {
    Nearest,
    Linear,
}

/// Sources of a texture swizzle.
#[derive(Debug, Clone, Copy, PartialEq, Eq, Structural, PartialOrd, Ord, Hash)]
pub enum Swizzle {
    Red,
    Green,
    Blue,
    Alpha,
    Zero,
    One,
}

/// Texture coordinate wrap modes.
#[derive(Debug, Clone, Copy, PartialEq, Eq, Structural, PartialOrd, Ord, Hash)]
pub enum Wrap {
    ClampToEdge,
    ClampToBorder,
    MirroredRepeat,
    Repeat,
    MirrorClampToEdge,
}

/// A texture parameter together with its value.
///
/// Floating-point values travel as the bit pattern of a single-precision
/// float; the library never computes with them.
#[derive(Debug, Clone, Copy, PartialEq, Eq, Structural)]
pub enum TexParam {
    DepthStencilMode(DepthMode),
    BaseLevel(i32),
    CompareFunc(CompareFunc),
    CompareMode(CompareMode),
    LodBias(u32),
    MinFilter(MinFilter),
    MagFilter(MagFilter),
    MinLod(u32),
    MaxLod(u32),
    MaxLevel(i32),
    SwizzleR(Swizzle),
    SwizzleG(Swizzle),
    SwizzleB(Swizzle),
    SwizzleA(Swizzle),
    SwizzleRGBA(Swizzle, Swizzle, Swizzle, Swizzle),
    WrapS(Wrap),
    WrapT(Wrap),
    WrapR(Wrap),
}

/// A parameter name and the value to set it to, by the kind of native call
/// that sets it: a float (as its bit pattern), an integer, or four integers.
#[derive(Debug, Clone, Copy, PartialEq, Eq)]
pub enum TexParamPair {
    GLf(u32, u32),
    GLi(u32, i32),
    GLiv(u32, (i32, i32, i32, i32)),
}

impl TexParam {
    /// The native value of a swizzle source.
    pub open spec fn swizzle_value(swizzle: Swizzle) -> i32 {
        match swizzle {
            Swizzle::Red => native::RED as i32,
            Swizzle::Green => native::GREEN as i32,
            Swizzle::Blue => native::BLUE as i32,
            Swizzle::Alpha => native::ALPHA as i32,
            Swizzle::Zero => native::ZERO as i32,
            Swizzle::One => native::ONE as i32,
        }
    }

    /// The native value of a wrap mode.
    pub open spec fn wrap_value(wrap: Wrap) -> i32 {
        match wrap {
            Wrap::ClampToEdge => native::CLAMP_TO_EDGE as i32,
            Wrap::ClampToBorder => native::CLAMP_TO_BORDER as i32,
            Wrap::MirroredRepeat => native::MIRRORED_REPEAT as i32,
            Wrap::Repeat => native::REPEAT as i32,
            Wrap::MirrorClampToEdge => native::MIRROR_CLAMP_TO_EDGE as i32,
        }
    }

    fn swizzle(swizzle: Swizzle) -> (r: i32)
        ensures
            r == Self::swizzle_value(swizzle),
    {
        match swizzle {
            Swizzle::Red => native::RED as i32,
            Swizzle::Green => native::GREEN as i32,
            Swizzle::Blue => native::BLUE as i32,
            Swizzle::Alpha => native::ALPHA as i32,
            Swizzle::Zero => native::ZERO as i32,
            Swizzle::One => native::ONE as i32,
        }
    }

    fn wrap(wrap: Wrap) -> (r: i32)
        ensures
            r == Self::wrap_value(wrap),
    {
        match wrap {
            Wrap::ClampToEdge => native::CLAMP_TO_EDGE as i32,
            Wrap::ClampToBorder => native::CLAMP_TO_BORDER as i32,
            Wrap::MirroredRepeat => native::MIRRORED_REPEAT as i32,
            Wrap::Repeat => native::REPEAT as i32,
            Wrap::MirrorClampToEdge => native::MIRROR_CLAMP_TO_EDGE as i32,
        }
    }

    /// The parameter name and value that setting this parameter passes.
    pub open spec fn pair(self) -> TexParamPair {
        match self {
            TexParam::DepthStencilMode(DepthMode::Component) => TexParamPair::GLi(
                native::DEPTH_STENCIL_TEXTURE_MODE,
                native::DEPTH_COMPONENT as i32,
            ),
            TexParam::DepthStencilMode(DepthMode::Index) => TexParamPair::GLi(
                native::DEPTH_STENCIL_TEXTURE_MODE,
                native::STENCIL_INDEX as i32,
            ),
            TexParam::BaseLevel(level) => TexParamPair::GLi(native::TEXTURE_BASE_LEVEL, level),
            TexParam::CompareFunc(func) => TexParamPair::GLi(
                native::TEXTURE_COMPARE_FUNC,
                func.gl_func() as i32,
            ),
            TexParam::CompareMode(CompareMode::CompareRefToTexture) => TexParamPair::GLi(
                native::TEXTURE_COMPARE_MODE,
                native::COMPARE_REF_TO_TEXTURE as i32,
            ),
            TexParam::CompareMode(CompareMode::NoCompare) => TexParamPair::GLi(
                native::TEXTURE_COMPARE_MODE,
                native::NONE as i32,
            ),
            TexParam::LodBias(bits) => TexParamPair::GLf(native::TEXTURE_LOD_BIAS, bits),
            TexParam::MinFilter(filter) => TexParamPair::GLi(
                native::TEXTURE_MIN_FILTER,
                match filter {
                    MinFilter::Nearest => native::NEAREST as i32,
                    MinFilter::Linear => native::LINEAR as i32,
                    MinFilter::NearestMipmapNearest => native::NEAREST_MIPMAP_NEAREST as i32,
                    MinFilter::LinearMipmapNearest => native::LINEAR_MIPMAP_NEAREST as i32,
                    MinFilter::NearestMipmapLinear => native::NEAREST_MIPMAP_LINEAR as i32,
                    MinFilter::LinearMipmapLinear => native::LINEAR_MIPMAP_LINEAR as i32,
                },
            ),
            TexParam::MagFilter(filter) => TexParamPair::GLi(
                native::TEXTURE_MAG_FILTER,
                match filter {
                    MagFilter::Nearest => native::NEAREST as i32,
                    MagFilter::Linear => native::LINEAR as i32,
                },
            ),
            TexParam::MinLod(bits) => TexParamPair::GLf(native::TEXTURE_MIN_LOD, bits),
            TexParam::MaxLod(bits) => TexParamPair::GLf(native::TEXTURE_MAX_LOD, bits),
            TexParam::MaxLevel(level) => TexParamPair::GLi(native::TEXTURE_MAX_LEVEL, level),
            TexParam::SwizzleR(s) => TexParamPair::GLi(
                native::TEXTURE_SWIZZLE_R,
                Self::swizzle_value(s),
            ),
            TexParam::SwizzleG(s) => TexParamPair::GLi(
                native::TEXTURE_SWIZZLE_G,
                Self::swizzle_value(s),
            ),
            TexParam::SwizzleB(s) => TexParamPair::GLi(
                native::TEXTURE_SWIZZLE_B,
                Self::swizzle_value(s),
            ),
            TexParam::SwizzleA(s) => TexParamPair::GLi(
                native::TEXTURE_SWIZZLE_A,
                Self::swizzle_value(s),
            ),
            TexParam::SwizzleRGBA(r, g, b, a) => TexParamPair::GLiv(
                native::TEXTURE_SWIZZLE_RGBA,
                (
                    Self::swizzle_value(r),
                    Self::swizzle_value(g),
                    Self::swizzle_value(b),
                    Self::swizzle_value(a),
                ),
            ),
            TexParam::WrapS(w) => TexParamPair::GLi(native::TEXTURE_WRAP_S, Self::wrap_value(w)),
            TexParam::WrapT(w) => TexParamPair::GLi(native::TEXTURE_WRAP_T, Self::wrap_value(w)),
            TexParam::WrapR(w) => TexParamPair::GLi(native::TEXTURE_WRAP_R, Self::wrap_value(w)),
        }
    }

    /// Translates this parameter into the name and value that setting it passes.
    pub fn to_pair(&self) -> (r: TexParamPair)
        ensures
            r == self.pair(),
    {
        match *self {
            TexParam::DepthStencilMode(mode) => match mode {
                DepthMode::Component => TexParamPair::GLi(
                    native::DEPTH_STENCIL_TEXTURE_MODE,
                    native::DEPTH_COMPONENT as i32,
                ),
                DepthMode::Index => TexParamPair::GLi(
                    native::DEPTH_STENCIL_TEXTURE_MODE,
                    native::STENCIL_INDEX as i32,
                ),
            },
            TexParam::BaseLevel(level) => TexParamPair::GLi(native::TEXTURE_BASE_LEVEL, level),
            TexParam::CompareFunc(func) => TexParamPair::GLi(
                native::TEXTURE_COMPARE_FUNC,
                func.to_gl_func() as i32,
            ),
            TexParam::CompareMode(mode) => match mode {
                CompareMode::CompareRefToTexture => TexParamPair::GLi(
                    native::TEXTURE_COMPARE_MODE,
                    native::COMPARE_REF_TO_TEXTURE as i32,
                ),
                CompareMode::NoCompare => TexParamPair::GLi(
                    native::TEXTURE_COMPARE_MODE,
                    native::NONE as i32,
                ),
            },
            TexParam::LodBias(bits) => TexParamPair::GLf(native::TEXTURE_LOD_BIAS, bits),
            TexParam::MinFilter(filter) => {
                let value = match filter {
                    MinFilter::Nearest => native::NEAREST as i32,
                    MinFilter::Linear => native::LINEAR as i32,
                    MinFilter::NearestMipmapNearest => native::NEAREST_MIPMAP_NEAREST as i32,
                    MinFilter::LinearMipmapNearest => native::LINEAR_MIPMAP_NEAREST as i32,
                    MinFilter::NearestMipmapLinear => native::NEAREST_MIPMAP_LINEAR as i32,
                    MinFilter::LinearMipmapLinear => native::LINEAR_MIPMAP_LINEAR as i32,
                };
                TexParamPair::GLi(native::TEXTURE_MIN_FILTER, value)
            },
            TexParam::MagFilter(filter) => {
                let value = match filter {
                    MagFilter::Nearest => native::NEAREST as i32,
                    MagFilter::Linear => native::LINEAR as i32,
                };
                TexParamPair::GLi(native::TEXTURE_MAG_FILTER, value)
            },
            TexParam::MinLod(bits) => TexParamPair::GLf(native::TEXTURE_MIN_LOD, bits),
            TexParam::MaxLod(bits) => TexParamPair::GLf(native::TEXTURE_MAX_LOD, bits),
            TexParam::MaxLevel(level) => TexParamPair::GLi(native::TEXTURE_MAX_LEVEL, level),
            TexParam::SwizzleR(s) => TexParamPair::GLi(native::TEXTURE_SWIZZLE_R, Self::swizzle(s)),
            TexParam::SwizzleG(s) => TexParamPair::GLi(native::TEXTURE_SWIZZLE_G, Self::swizzle(s)),
            TexParam::SwizzleB(s) => TexParamPair::GLi(native::TEXTURE_SWIZZLE_B, Self::swizzle(s)),
            TexParam::SwizzleA(s) => TexParamPair::GLi(native::TEXTURE_SWIZZLE_A, Self::swizzle(s)),
            TexParam::SwizzleRGBA(r, g, b, a) => TexParamPair::GLiv(
                native::TEXTURE_SWIZZLE_RGBA,
                (Self::swizzle(r), Self::swizzle(g), Self::swizzle(b), Self::swizzle(a)),
            ),
            TexParam::WrapS(w) => TexParamPair::GLi(native::TEXTURE_WRAP_S, Self::wrap(w)),
            TexParam::WrapT(w) => TexParamPair::GLi(native::TEXTURE_WRAP_T, Self::wrap(w)),
            TexParam::WrapR(w) => TexParamPair::GLi(native::TEXTURE_WRAP_R, Self::wrap(w)),
        }
    }
}

} // verus!
