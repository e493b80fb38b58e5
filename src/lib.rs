//! A handle-based binding layer over the OpenGL object model.
//!
//! The library never talks to a device itself. Every native call that an
//! operation needs is queued, in order, as a [`Command`] in a [`Context`];
//! the embedding application drains that queue, performs the calls, and
//! hands what the device answered (object names, status flags, uniform
//! locations, error codes) to the functions that decide what follows.
use vstd::prelude::*;

pub mod array;
pub mod buffer;
pub mod command;
pub mod context;
pub mod enums;
pub mod error;
pub mod frame_buffer;
pub mod info_log;
pub mod layout;
pub mod native;
pub mod program;
pub mod render_buffer;
pub mod shader;
pub mod tex_param;
pub mod texture;
pub mod vertex;

pub use array::{Array, Arrays};
pub use buffer::{Buffer, Buffers};
pub use command::{Command, Kind, UniformValue};
pub use context::Context;
pub use enums::{
    Attachmect, BaseFormat, BlendEquation, BlendFactor, Cap, CompareFunc, CompressedFormat,
    CullFace, DepthFunc, Filter, FrameBufferAttachment, FrameBufferTarget, FrontFace, GlType,
    ImageFormat, ImageTarget, InternalFormat, Mask, MinmapTarget, Mode, PixelDataType,
    RenderBufferFormat, ShaderType, SizedFormat, StencilFunc, StencilOp, Target, TexCubeMap,
    TexTarget, TextureTarget, Usage,
};
pub use error::{check_error, Error};
pub use frame_buffer::{FrameBuffer, FrameBuffers};
pub use program::{check_uniform_err, Program, ProgramState};
pub use render_buffer::{RenderBuffer, RenderBuffers};
pub use shader::{Shader, ShaderState};
pub use tex_param::{
    CompareMode, DepthMode, MagFilter, MinFilter, Swizzle, TexParam, TexParamPair, Wrap,
};
pub use texture::{Texture, Textures};
pub use vertex::Vertex;

verus! {

/// The OpenGL version that the library is written against.
pub const OPENGL_VERSION: (u32, u32) = (4, 5);

} // verus!
