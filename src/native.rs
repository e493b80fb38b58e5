//! Native constant values of the OpenGL 4.5 core profile, as the Khronos
//! registry assigns them. The translation tables map each symbolic value of
//! the library onto one of these.
use vstd::prelude::*;

verus! {

/// `GL_NONE`.
pub const NONE: u32 = 0;

/// `GL_NO_ERROR`.
pub const NO_ERROR: u32 = 0;

/// `GL_POINTS`.
pub const POINTS: u32 = 0x0000;

/// `GL_ZERO`.
pub const ZERO: u32 = 0;

/// `GL_LINES`.
pub const LINES: u32 = 0x0001;

/// `GL_ONE`.
pub const ONE: u32 = 1;

/// `GL_LINE_LOOP`.
pub const LINE_LOOP: u32 = 0x0002;

/// `GL_LINE_STRIP`.
pub const LINE_STRIP: u32 = 0x0003;

/// `GL_TRIANGLES`.
pub const TRIANGLES: u32 = 0x0004;

/// `GL_TRIANGLE_STRIP`.
pub const TRIANGLE_STRIP: u32 = 0x0005;

/// `GL_TRIANGLE_FAN`.
pub const TRIANGLE_FAN: u32 = 0x0006;

/// `GL_LINES_ADJACENCY`.
pub const LINES_ADJACENCY: u32 = 0x000A;

/// `GL_LINE_STRIP_ADJACENCY`.
pub const LINE_STRIP_ADJACENCY: u32 = 0x000B;

/// `GL_TRIANGLES_ADJACENCY`.
pub const TRIANGLES_ADJACENCY: u32 = 0x000C;

/// `GL_TRIANGLE_STRIP_ADJACENCY`.
pub const TRIANGLE_STRIP_ADJACENCY: u32 = 0x000D;

/// `GL_PATCHES`.
pub const PATCHES: u32 = 0x000E;

/// `GL_DEPTH_BUFFER_BIT`.
pub const DEPTH_BUFFER_BIT: u32 = 0x00000100;

/// `GL_NEVER`.
pub const NEVER: u32 = 0x0200;

/// `GL_LESS`.
pub const LESS: u32 = 0x0201;

/// `GL_EQUAL`.
pub const EQUAL: u32 = 0x0202;

/// `GL_LEQUAL`.
pub const LEQUAL: u32 = 0x0203;

/// `GL_GREATER`.
pub const GREATER: u32 = 0x0204;

/// `GL_NOTEQUAL`.
pub const NOTEQUAL: u32 = 0x0205;

/// `GL_GEQUAL`.
pub const GEQUAL: u32 = 0x0206;

/// `GL_ALWAYS`.
pub const ALWAYS: u32 = 0x0207;

/// `GL_SRC_COLOR`.
pub const SRC_COLOR: u32 = 0x0300;

/// `GL_ONE_MINUS_SRC_COLOR`.
pub const ONE_MINUS_SRC_COLOR: u32 = 0x0301;

/// `GL_SRC_ALPHA`.
pub const SRC_ALPHA: u32 = 0x0302;

/// `GL_ONE_MINUS_SRC_ALPHA`.
pub const ONE_MINUS_SRC_ALPHA: u32 = 0x0303;

/// `GL_DST_ALPHA`.
pub const DST_ALPHA: u32 = 0x0304;

/// `GL_ONE_MINUS_DST_ALPHA`.
pub const ONE_MINUS_DST_ALPHA: u32 = 0x0305;

/// `GL_DST_COLOR`.
pub const DST_COLOR: u32 = 0x0306;

/// `GL_ONE_MINUS_DST_COLOR`.
pub const ONE_MINUS_DST_COLOR: u32 = 0x0307;

/// `GL_STENCIL_BUFFER_BIT`.
pub const STENCIL_BUFFER_BIT: u32 = 0x00000400;

/// `GL_FRONT`.
pub const FRONT: u32 = 0x0404;

/// `GL_BACK`.
pub const BACK: u32 = 0x0405;

/// `GL_FRONT_AND_BACK`.
pub const FRONT_AND_BACK: u32 = 0x0408;

/// `GL_INVALID_ENUM`.
pub const INVALID_ENUM: u32 = 0x0500;

/// `GL_INVALID_VALUE`.
pub const INVALID_VALUE: u32 = 0x0501;

/// `GL_INVALID_OPERATION`.
pub const INVALID_OPERATION: u32 = 0x0502;

/// `GL_CW`.
pub const CW: u32 = 0x0900;

/// `GL_CCW`.
pub const CCW: u32 = 0x0901;

/// `GL_LINE_SMOOTH`.
pub const LINE_SMOOTH: u32 = 0x0B20;

/// `GL_POLYGON_SMOOTH`.
pub const POLYGON_SMOOTH: u32 = 0x0B41;

/// `GL_CULL_FACE`.
pub const CULL_FACE: u32 = 0x0B44;

/// `GL_DEPTH_TEST`.
pub const DEPTH_TEST: u32 = 0x0B71;

/// `GL_STENCIL_TEST`.
pub const STENCIL_TEST: u32 = 0x0B90;

/// `GL_DITHER`.
pub const DITHER: u32 = 0x0BD0;

/// `GL_BLEND`.
pub const BLEND: u32 = 0x0BE2;

/// `GL_COLOR_LOGIC_OP`.
pub const COLOR_LOGIC_OP: u32 = 0x0BF2;

/// `GL_SCISSOR_TEST`.
pub const SCISSOR_TEST: u32 = 0x0C11;

/// `GL_TEXTURE_1D`.
pub const TEXTURE_1D: u32 = 0x0DE0;

/// `GL_TEXTURE_2D`.
pub const TEXTURE_2D: u32 = 0x0DE1;

/// `GL_BYTE`.
pub const BYTE: u32 = 0x1400;

/// `GL_UNSIGNED_BYTE`.
pub const UNSIGNED_BYTE: u32 = 0x1401;

/// `GL_SHORT`.
pub const SHORT: u32 = 0x1402;

/// `GL_UNSIGNED_SHORT`.
pub const UNSIGNED_SHORT: u32 = 0x1403;

/// `GL_INT`.
pub const INT: u32 = 0x1404;

/// `GL_UNSIGNED_INT`.
pub const UNSIGNED_INT: u32 = 0x1405;

/// `GL_FLOAT`.
pub const FLOAT: u32 = 0x1406;

/// `GL_DOUBLE`.
pub const DOUBLE: u32 = 0x140A;

/// `GL_HALF_FLOAT`.
pub const HALF_FLOAT: u32 = 0x140B;

/// `GL_INVERT`.
pub const INVERT: u32 = 0x150A;

/// `GL_STENCIL_INDEX`.
pub const STENCIL_INDEX: u32 = 0x1901;

/// `GL_DEPTH_COMPONENT`.
pub const DEPTH_COMPONENT: u32 = 0x1902;

/// `GL_RED`.
pub const RED: u32 = 0x1903;

/// `GL_GREEN`.
pub const GREEN: u32 = 0x1904;

/// `GL_BLUE`.
pub const BLUE: u32 = 0x1905;

/// `GL_ALPHA`.
pub const ALPHA: u32 = 0x1906;

/// `GL_RGB`.
pub const RGB: u32 = 0x1907;

/// `GL_RGBA`.
pub const RGBA: u32 = 0x1908;

/// `GL_KEEP`.
pub const KEEP: u32 = 0x1E00;

/// `GL_REPLACE`.
pub const REPLACE: u32 = 0x1E01;

/// `GL_INCR`.
pub const INCR: u32 = 0x1E02;

/// `GL_DECR`.
pub const DECR: u32 = 0x1E03;

/// `GL_NEAREST`.
pub const NEAREST: u32 = 0x2600;

/// `GL_LINEAR`.
pub const LINEAR: u32 = 0x2601;

/// `GL_NEAREST_MIPMAP_NEAREST`.
pub const NEAREST_MIPMAP_NEAREST: u32 = 0x2700;

/// `GL_LINEAR_MIPMAP_NEAREST`.
pub const LINEAR_MIPMAP_NEAREST: u32 = 0x2701;

/// `GL_NEAREST_MIPMAP_LINEAR`.
pub const NEAREST_MIPMAP_LINEAR: u32 = 0x2702;

/// `GL_LINEAR_MIPMAP_LINEAR`.
pub const LINEAR_MIPMAP_LINEAR: u32 = 0x2703;

/// `GL_TEXTURE_MAG_FILTER`.
pub const TEXTURE_MAG_FILTER: u32 = 0x2800;

/// `GL_TEXTURE_MIN_FILTER`.
pub const TEXTURE_MIN_FILTER: u32 = 0x2801;

/// `GL_TEXTURE_WRAP_S`.
pub const TEXTURE_WRAP_S: u32 = 0x2802;

/// `GL_TEXTURE_WRAP_T`.
pub const TEXTURE_WRAP_T: u32 = 0x2803;

/// `GL_REPEAT`.
pub const REPEAT: u32 = 0x2901;

/// `GL_POLYGON_OFFSET_POINT`.
pub const POLYGON_OFFSET_POINT: u32 = 0x2A01;

/// `GL_POLYGON_OFFSET_LINE`.
pub const POLYGON_OFFSET_LINE: u32 = 0x2A02;

/// `GL_R3_G3_B2`.
pub const R3_G3_B2: u32 = 0x2A10;

/// `GL_CLIP_DISTANCE0`.
pub const CLIP_DISTANCE0: u32 = 0x3000;

/// `GL_CLIP_DISTANCE1`.
pub const CLIP_DISTANCE1: u32 = 0x3001;

/// `GL_CLIP_DISTANCE2`.
pub const CLIP_DISTANCE2: u32 = 0x3002;

/// `GL_CLIP_DISTANCE3`.
pub const CLIP_DISTANCE3: u32 = 0x3003;

/// `GL_CLIP_DISTANCE4`.
pub const CLIP_DISTANCE4: u32 = 0x3004;

/// `GL_CLIP_DISTANCE5`.
pub const CLIP_DISTANCE5: u32 = 0x3005;

/// `GL_CLIP_DISTANCE6`.
pub const CLIP_DISTANCE6: u32 = 0x3006;

/// `GL_CLIP_DISTANCE7`.
pub const CLIP_DISTANCE7: u32 = 0x3007;

/// `GL_COLOR_BUFFER_BIT`.
pub const COLOR_BUFFER_BIT: u32 = 0x00004000;

/// `GL_CONSTANT_COLOR`.
pub const CONSTANT_COLOR: u32 = 0x8001;

/// `GL_ONE_MINUS_CONSTANT_COLOR`.
pub const ONE_MINUS_CONSTANT_COLOR: u32 = 0x8002;

/// `GL_CONSTANT_ALPHA`.
pub const CONSTANT_ALPHA: u32 = 0x8003;

/// `GL_ONE_MINUS_CONSTANT_ALPHA`.
pub const ONE_MINUS_CONSTANT_ALPHA: u32 = 0x8004;

/// `GL_FUNC_ADD`.
pub const FUNC_ADD: u32 = 0x8006;

/// `GL_MIN`.
pub const MIN: u32 = 0x8007;

/// `GL_MAX`.
pub const MAX: u32 = 0x8008;

/// `GL_FUNC_SUBTRACT`.
pub const FUNC_SUBTRACT: u32 = 0x800A;

/// `GL_FUNC_REVERSE_SUBTRACT`.
pub const FUNC_REVERSE_SUBTRACT: u32 = 0x800B;

/// `GL_UNSIGNED_BYTE_3_3_2`.
pub const UNSIGNED_BYTE_3_3_2: u32 = 0x8032;

/// `GL_UNSIGNED_SHORT_4_4_4_4`.
pub const UNSIGNED_SHORT_4_4_4_4: u32 = 0x8033;

/// `GL_UNSIGNED_SHORT_5_5_5_1`.
pub const UNSIGNED_SHORT_5_5_5_1: u32 = 0x8034;

/// `GL_UNSIGNED_INT_8_8_8_8`.
pub const UNSIGNED_INT_8_8_8_8: u32 = 0x8035;

/// `GL_UNSIGNED_INT_10_10_10_2`.
pub const UNSIGNED_INT_10_10_10_2: u32 = 0x8036;

/// `GL_POLYGON_OFFSET_FILL`.
pub const POLYGON_OFFSET_FILL: u32 = 0x8037;

/// `GL_RGB4`.
pub const RGB4: u32 = 0x804F;

/// `GL_RGB5`.
pub const RGB5: u32 = 0x8050;

/// `GL_RGB8`.
pub const RGB8: u32 = 0x8051;

/// `GL_RGB10`.
pub const RGB10: u32 = 0x8052;

/// `GL_RGB12`.
pub const RGB12: u32 = 0x8053;

/// `GL_RGBA2`.
pub const RGBA2: u32 = 0x8055;

/// `GL_RGBA4`.
pub const RGBA4: u32 = 0x8056;

/// `GL_RGB5_A1`.
pub const RGB5_A1: u32 = 0x8057;

/// `GL_RGBA8`.
pub const RGBA8: u32 = 0x8058;

/// `GL_RGB10_A2`.
pub const RGB10_A2: u32 = 0x8059;

/// `GL_RGBA12`.
pub const RGBA12: u32 = 0x805A;

/// `GL_RGBA16`.
pub const RGBA16: u32 = 0x805B;

/// `GL_PROXY_TEXTURE_2D`.
pub const PROXY_TEXTURE_2D: u32 = 0x8064;

/// `GL_TEXTURE_3D`.
pub const TEXTURE_3D: u32 = 0x806F;

/// `GL_TEXTURE_WRAP_R`.
pub const TEXTURE_WRAP_R: u32 = 0x8072;

/// `GL_MULTISAMPLE`.
pub const MULTISAMPLE: u32 = 0x809D;

/// `GL_SAMPLE_ALPHA_TO_COVERAGE`.
pub const SAMPLE_ALPHA_TO_COVERAGE: u32 = 0x809E;

/// `GL_SAMPLE_ALPHA_TO_ONE`.
pub const SAMPLE_ALPHA_TO_ONE: u32 = 0x809F;

/// `GL_SAMPLE_COVERAGE`.
pub const SAMPLE_COVERAGE: u32 = 0x80A0;

/// `GL_BGR`.
pub const BGR: u32 = 0x80E0;

/// `GL_BGRA`.
pub const BGRA: u32 = 0x80E1;

/// `GL_CLAMP_TO_BORDER`.
pub const CLAMP_TO_BORDER: u32 = 0x812D;

/// `GL_CLAMP_TO_EDGE`.
pub const CLAMP_TO_EDGE: u32 = 0x812F;

/// `GL_TEXTURE_MIN_LOD`.
pub const TEXTURE_MIN_LOD: u32 = 0x813A;

/// `GL_TEXTURE_MAX_LOD`.
pub const TEXTURE_MAX_LOD: u32 = 0x813B;

/// `GL_TEXTURE_BASE_LEVEL`.
pub const TEXTURE_BASE_LEVEL: u32 = 0x813C;

/// `GL_TEXTURE_MAX_LEVEL`.
pub const TEXTURE_MAX_LEVEL: u32 = 0x813D;

/// `GL_DEPTH_COMPONENT16`.
pub const DEPTH_COMPONENT16: u32 = 0x81A5;

/// `GL_DEPTH_COMPONENT24`.
pub const DEPTH_COMPONENT24: u32 = 0x81A6;

/// `GL_DEPTH_STENCIL_ATTACHMENT`.
pub const DEPTH_STENCIL_ATTACHMENT: u32 = 0x821A;

/// `GL_COMPRESSED_RED`.
pub const COMPRESSED_RED: u32 = 0x8225;

/// `GL_COMPRESSED_RG`.
pub const COMPRESSED_RG: u32 = 0x8226;

/// `GL_RG`.
pub const RG: u32 = 0x8227;

/// `GL_R8`.
pub const R8: u32 = 0x8229;

/// `GL_R16`.
pub const R16: u32 = 0x822A;

/// `GL_RG8`.
pub const RG8: u32 = 0x822B;

/// `GL_RG16`.
pub const RG16: u32 = 0x822C;

/// `GL_R16F`.
pub const R16F: u32 = 0x822D;

/// `GL_R32F`.
pub const R32F: u32 = 0x822E;

/// `GL_RG16F`.
pub const RG16F: u32 = 0x822F;

/// `GL_RG32F`.
pub const RG32F: u32 = 0x8230;

/// `GL_R8I`.
pub const R8I: u32 = 0x8231;

/// `GL_R8UI`.
pub const R8UI: u32 = 0x8232;

/// `GL_R16I`.
pub const R16I: u32 = 0x8233;

/// `GL_R16UI`.
pub const R16UI: u32 = 0x8234;

/// `GL_R32I`.
pub const R32I: u32 = 0x8235;

/// `GL_R32UI`.
pub const R32UI: u32 = 0x8236;

/// `GL_RG8I`.
pub const RG8I: u32 = 0x8237;

/// `GL_RG8UI`.
pub const RG8UI: u32 = 0x8238;

/// `GL_RG16I`.
pub const RG16I: u32 = 0x8239;

/// `GL_RG16UI`.
pub const RG16UI: u32 = 0x823A;

/// `GL_RG32I`.
pub const RG32I: u32 = 0x823B;

/// `GL_RG32UI`.
pub const RG32UI: u32 = 0x823C;

/// `GL_DEBUG_OUTPUT_SYNCHRONOUS`.
pub const DEBUG_OUTPUT_SYNCHRONOUS: u32 = 0x8242;

/// `GL_UNSIGNED_BYTE_2_3_3_REV`.
pub const UNSIGNED_BYTE_2_3_3_REV: u32 = 0x8362;

/// `GL_UNSIGNED_SHORT_5_6_5`.
pub const UNSIGNED_SHORT_5_6_5: u32 = 0x8363;

/// `GL_UNSIGNED_SHORT_5_6_5_REV`.
pub const UNSIGNED_SHORT_5_6_5_REV: u32 = 0x8364;

/// `GL_UNSIGNED_SHORT_4_4_4_4_REV`.
pub const UNSIGNED_SHORT_4_4_4_4_REV: u32 = 0x8365;

/// `GL_UNSIGNED_SHORT_1_5_5_5_REV`.
pub const UNSIGNED_SHORT_1_5_5_5_REV: u32 = 0x8366;

/// `GL_UNSIGNED_INT_8_8_8_8_REV`.
pub const UNSIGNED_INT_8_8_8_8_REV: u32 = 0x8367;

/// `GL_UNSIGNED_INT_2_10_10_10_REV`.
pub const UNSIGNED_INT_2_10_10_10_REV: u32 = 0x8368;

/// `GL_MIRRORED_REPEAT`.
pub const MIRRORED_REPEAT: u32 = 0x8370;

/// `GL_TEXTURE0`.
pub const TEXTURE0: u32 = 0x84C0;

/// `GL_COMPRESSED_RGB`.
pub const COMPRESSED_RGB: u32 = 0x84ED;

/// `GL_COMPRESSED_RGBA`.
pub const COMPRESSED_RGBA: u32 = 0x84EE;

/// `GL_TEXTURE_RECTANGLE`.
pub const TEXTURE_RECTANGLE: u32 = 0x84F5;

/// `GL_PROXY_TEXTURE_RECTANGLE`.
pub const PROXY_TEXTURE_RECTANGLE: u32 = 0x84F7;

/// `GL_DEPTH_STENCIL`.
pub const DEPTH_STENCIL: u32 = 0x84F9;

/// `GL_TEXTURE_LOD_BIAS`.
pub const TEXTURE_LOD_BIAS: u32 = 0x8501;

/// `GL_INCR_WRAP`.
pub const INCR_WRAP: u32 = 0x8507;

/// `GL_DECR_WRAP`.
pub const DECR_WRAP: u32 = 0x8508;

/// `GL_TEXTURE_CUBE_MAP`.
pub const TEXTURE_CUBE_MAP: u32 = 0x8513;

/// `GL_TEXTURE_CUBE_MAP_POSITIVE_X`.
pub const TEXTURE_CUBE_MAP_POSITIVE_X: u32 = 0x8515;

/// `GL_TEXTURE_CUBE_MAP_NEGATIVE_X`.
pub const TEXTURE_CUBE_MAP_NEGATIVE_X: u32 = 0x8516;

/// `GL_TEXTURE_CUBE_MAP_POSITIVE_Y`.
pub const TEXTURE_CUBE_MAP_POSITIVE_Y: u32 = 0x8517;

/// `GL_TEXTURE_CUBE_MAP_NEGATIVE_Y`.
pub const TEXTURE_CUBE_MAP_NEGATIVE_Y: u32 = 0x8518;

/// `GL_TEXTURE_CUBE_MAP_POSITIVE_Z`.
pub const TEXTURE_CUBE_MAP_POSITIVE_Z: u32 = 0x8519;

/// `GL_TEXTURE_CUBE_MAP_NEGATIVE_Z`.
pub const TEXTURE_CUBE_MAP_NEGATIVE_Z: u32 = 0x851A;

/// `GL_PROXY_TEXTURE_CUBE_MAP`.
pub const PROXY_TEXTURE_CUBE_MAP: u32 = 0x851B;

/// `GL_PROGRAM_POINT_SIZE`.
pub const PROGRAM_POINT_SIZE: u32 = 0x8642;

/// `GL_DEPTH_CLAMP`.
pub const DEPTH_CLAMP: u32 = 0x864F;

/// `GL_MIRROR_CLAMP_TO_EDGE`.
pub const MIRROR_CLAMP_TO_EDGE: u32 = 0x8743;

/// `GL_RGBA32F`.
pub const RGBA32F: u32 = 0x8814;

/// `GL_RGB32F`.
pub const RGB32F: u32 = 0x8815;

/// `GL_RGBA16F`.
pub const RGBA16F: u32 = 0x881A;

/// `GL_RGB16F`.
pub const RGB16F: u32 = 0x881B;

/// `GL_TEXTURE_COMPARE_MODE`.
pub const TEXTURE_COMPARE_MODE: u32 = 0x884C;

/// `GL_TEXTURE_COMPARE_FUNC`.
pub const TEXTURE_COMPARE_FUNC: u32 = 0x884D;

/// `GL_COMPARE_REF_TO_TEXTURE`.
pub const COMPARE_REF_TO_TEXTURE: u32 = 0x884E;

/// `GL_TEXTURE_CUBE_MAP_SEAMLESS`.
pub const TEXTURE_CUBE_MAP_SEAMLESS: u32 = 0x884F;

/// `GL_ARRAY_BUFFER`.
pub const ARRAY_BUFFER: u32 = 0x8892;

/// `GL_ELEMENT_ARRAY_BUFFER`.
pub const ELEMENT_ARRAY_BUFFER: u32 = 0x8893;

/// `GL_STREAM_DRAW`.
pub const STREAM_DRAW: u32 = 0x88E0;

/// `GL_STREAM_READ`.
pub const STREAM_READ: u32 = 0x88E1;

/// `GL_STREAM_COPY`.
pub const STREAM_COPY: u32 = 0x88E2;

/// `GL_STATIC_DRAW`.
pub const STATIC_DRAW: u32 = 0x88E4;

/// `GL_STATIC_READ`.
pub const STATIC_READ: u32 = 0x88E5;

/// `GL_STATIC_COPY`.
pub const STATIC_COPY: u32 = 0x88E6;

/// `GL_DYNAMIC_DRAW`.
pub const DYNAMIC_DRAW: u32 = 0x88E8;

/// `GL_DYNAMIC_READ`.
pub const DYNAMIC_READ: u32 = 0x88E9;

/// `GL_DYNAMIC_COPY`.
pub const DYNAMIC_COPY: u32 = 0x88EA;

/// `GL_PIXEL_PACK_BUFFER`.
pub const PIXEL_PACK_BUFFER: u32 = 0x88EB;

/// `GL_PIXEL_UNPACK_BUFFER`.
pub const PIXEL_UNPACK_BUFFER: u32 = 0x88EC;

/// `GL_DEPTH24_STENCIL8`.
pub const DEPTH24_STENCIL8: u32 = 0x88F0;

/// `GL_UNIFORM_BUFFER`.
pub const UNIFORM_BUFFER: u32 = 0x8A11;

/// `GL_FRAGMENT_SHADER`.
pub const FRAGMENT_SHADER: u32 = 0x8B30;

/// `GL_VERTEX_SHADER`.
pub const VERTEX_SHADER: u32 = 0x8B31;

/// `GL_COMPILE_STATUS`.
pub const COMPILE_STATUS: u32 = 0x8B81;

/// `GL_LINK_STATUS`.
pub const LINK_STATUS: u32 = 0x8B82;

/// `GL_INFO_LOG_LENGTH`.
pub const INFO_LOG_LENGTH: u32 = 0x8B84;

/// `GL_TEXTURE_1D_ARRAY`.
pub const TEXTURE_1D_ARRAY: u32 = 0x8C18;

/// `GL_PROXY_TEXTURE_1D_ARRAY`.
pub const PROXY_TEXTURE_1D_ARRAY: u32 = 0x8C19;

/// `GL_TEXTURE_2D_ARRAY`.
pub const TEXTURE_2D_ARRAY: u32 = 0x8C1A;

/// `GL_TEXTURE_BUFFER`.
pub const TEXTURE_BUFFER: u32 = 0x8C2A;

/// `GL_SAMPLE_SHADING`.
pub const SAMPLE_SHADING: u32 = 0x8C36;

/// `GL_R11F_G11F_B10F`.
pub const R11F_G11F_B10F: u32 = 0x8C3A;

/// `GL_RGB9_E5`.
pub const RGB9_E5: u32 = 0x8C3D;

/// `GL_SRGB8`.
pub const SRGB8: u32 = 0x8C41;

/// `GL_SRGB8_ALPHA8`.
pub const SRGB8_ALPHA8: u32 = 0x8C43;

/// `GL_COMPRESSED_SRGB`.
pub const COMPRESSED_SRGB: u32 = 0x8C48;

/// `GL_COMPRESSED_SRGB_ALPHA`.
pub const COMPRESSED_SRGB_ALPHA: u32 = 0x8C49;

/// `GL_RASTERIZER_DISCARD`.
pub const RASTERIZER_DISCARD: u32 = 0x8C89;

/// `GL_TRANSFORM_FEEDBACK_BUFFER`.
pub const TRANSFORM_FEEDBACK_BUFFER: u32 = 0x8C8E;

/// `GL_READ_FRAMEBUFFER`.
pub const READ_FRAMEBUFFER: u32 = 0x8CA8;

/// `GL_DRAW_FRAMEBUFFER`.
pub const DRAW_FRAMEBUFFER: u32 = 0x8CA9;

/// `GL_DEPTH_COMPONENT32F`.
pub const DEPTH_COMPONENT32F: u32 = 0x8CAC;

/// `GL_DEPTH32F_STENCIL8`.
pub const DEPTH32F_STENCIL8: u32 = 0x8CAD;

/// `GL_COLOR_ATTACHMENT0`.
pub const COLOR_ATTACHMENT0: u32 = 0x8CE0;

/// `GL_DEPTH_ATTACHMENT`.
pub const DEPTH_ATTACHMENT: u32 = 0x8D00;

/// `GL_STENCIL_ATTACHMENT`.
pub const STENCIL_ATTACHMENT: u32 = 0x8D20;

/// `GL_FRAMEBUFFER`.
pub const FRAMEBUFFER: u32 = 0x8D40;

/// `GL_RENDERBUFFER`.
pub const RENDERBUFFER: u32 = 0x8D41;

/// `GL_RGB565`.
pub const RGB565: u32 = 0x8D62;

/// `GL_PRIMITIVE_RESTART_FIXED_INDEX`.
pub const PRIMITIVE_RESTART_FIXED_INDEX: u32 = 0x8D69;

/// `GL_RGBA32UI`.
pub const RGBA32UI: u32 = 0x8D70;

/// `GL_RGB32UI`.
pub const RGB32UI: u32 = 0x8D71;

/// `GL_RGBA16UI`.
pub const RGBA16UI: u32 = 0x8D76;

/// `GL_RGB16UI`.
pub const RGB16UI: u32 = 0x8D77;

/// `GL_RGBA8UI`.
pub const RGBA8UI: u32 = 0x8D7C;

/// `GL_RGB8UI`.
pub const RGB8UI: u32 = 0x8D7D;

/// `GL_RGBA32I`.
pub const RGBA32I: u32 = 0x8D82;

/// `GL_RGB32I`.
pub const RGB32I: u32 = 0x8D83;

/// `GL_RGBA16I`.
pub const RGBA16I: u32 = 0x8D88;

/// `GL_RGB16I`.
pub const RGB16I: u32 = 0x8D89;

/// `GL_RGBA8I`.
pub const RGBA8I: u32 = 0x8D8E;

/// `GL_RGB8I`.
pub const RGB8I: u32 = 0x8D8F;

/// `GL_FRAMEBUFFER_SRGB`.
pub const FRAMEBUFFER_SRGB: u32 = 0x8DB9;

/// `GL_COMPRESSED_RED_RGTC1`.
pub const COMPRESSED_RED_RGTC1: u32 = 0x8DBB;

/// `GL_COMPRESSED_SIGNED_RED_RGTC1`.
pub const COMPRESSED_SIGNED_RED_RGTC1: u32 = 0x8DBC;

/// `GL_COMPRESSED_RG_RGTC2`.
pub const COMPRESSED_RG_RGTC2: u32 = 0x8DBD;

/// `GL_COMPRESSED_SIGNED_RG_RGTC2`.
pub const COMPRESSED_SIGNED_RG_RGTC2: u32 = 0x8DBE;

/// `GL_GEOMETRY_SHADER`.
pub const GEOMETRY_SHADER: u32 = 0x8DD9;

/// `GL_TEXTURE_SWIZZLE_R`.
pub const TEXTURE_SWIZZLE_R: u32 = 0x8E42;

/// `GL_TEXTURE_SWIZZLE_G`.
pub const TEXTURE_SWIZZLE_G: u32 = 0x8E43;

/// `GL_TEXTURE_SWIZZLE_B`.
pub const TEXTURE_SWIZZLE_B: u32 = 0x8E44;

/// `GL_TEXTURE_SWIZZLE_A`.
pub const TEXTURE_SWIZZLE_A: u32 = 0x8E45;

/// `GL_TEXTURE_SWIZZLE_RGBA`.
pub const TEXTURE_SWIZZLE_RGBA: u32 = 0x8E46;

/// `GL_SAMPLE_MASK`.
pub const SAMPLE_MASK: u32 = 0x8E51;

/// `GL_TESS_EVALUATION_SHADER`.
pub const TESS_EVALUATION_SHADER: u32 = 0x8E87;

/// `GL_TESS_CONTROL_SHADER`.
pub const TESS_CONTROL_SHADER: u32 = 0x8E88;

/// `GL_COMPRESSED_RGBA_BPTC_UNORM`.
pub const COMPRESSED_RGBA_BPTC_UNORM: u32 = 0x8E8C;

/// `GL_COMPRESSED_SRGB_ALPHA_BPTC_UNORM`.
pub const COMPRESSED_SRGB_ALPHA_BPTC_UNORM: u32 = 0x8E8D;

/// `GL_COMPRESSED_RGB_BPTC_SIGNED_FLOAT`.
pub const COMPRESSED_RGB_BPTC_SIGNED_FLOAT: u32 = 0x8E8E;

/// `GL_COMPRESSED_RGB_BPTC_UNSIGNED_FLOAT`.
pub const COMPRESSED_RGB_BPTC_UNSIGNED_FLOAT: u32 = 0x8E8F;

/// `GL_COPY_READ_BUFFER`.
pub const COPY_READ_BUFFER: u32 = 0x8F36;

/// `GL_COPY_WRITE_BUFFER`.
pub const COPY_WRITE_BUFFER: u32 = 0x8F37;

/// `GL_DRAW_INDIRECT_BUFFER`.
pub const DRAW_INDIRECT_BUFFER: u32 = 0x8F3F;

/// `GL_R8_SNORM`.
pub const R8_SNORM: u32 = 0x8F94;

/// `GL_RG8_SNORM`.
pub const RG8_SNORM: u32 = 0x8F95;

/// `GL_RGB8_SNORM`.
pub const RGB8_SNORM: u32 = 0x8F96;

/// `GL_RGBA8_SNORM`.
pub const RGBA8_SNORM: u32 = 0x8F97;

/// `GL_R16_SNORM`.
pub const R16_SNORM: u32 = 0x8F98;

/// `GL_RG16_SNORM`.
pub const RG16_SNORM: u32 = 0x8F99;

/// `GL_RGB16_SNORM`.
pub const RGB16_SNORM: u32 = 0x8F9A;

/// `GL_PRIMITIVE_RESTART`.
pub const PRIMITIVE_RESTART: u32 = 0x8F9D;

/// `GL_TEXTURE_CUBE_MAP_ARRAY`.
pub const TEXTURE_CUBE_MAP_ARRAY: u32 = 0x9009;

/// `GL_RGB10_A2UI`.
pub const RGB10_A2UI: u32 = 0x906F;

/// `GL_SHADER_STORAGE_BUFFER`.
pub const SHADER_STORAGE_BUFFER: u32 = 0x90D2;

/// `GL_DEPTH_STENCIL_TEXTURE_MODE`.
pub const DEPTH_STENCIL_TEXTURE_MODE: u32 = 0x90EA;

/// `GL_DISPATCH_INDIRECT_BUFFER`.
pub const DISPATCH_INDIRECT_BUFFER: u32 = 0x90EE;

/// `GL_TEXTURE_2D_MULTISAMPLE`.
pub const TEXTURE_2D_MULTISAMPLE: u32 = 0x9100;

/// `GL_TEXTURE_2D_MULTISAMPLE_ARRAY`.
pub const TEXTURE_2D_MULTISAMPLE_ARRAY: u32 = 0x9102;

/// `GL_QUERY_BUFFER`.
pub const QUERY_BUFFER: u32 = 0x9192;

/// `GL_COMPUTE_SHADER`.
pub const COMPUTE_SHADER: u32 = 0x91B9;

/// `GL_ATOMIC_COUNTER_BUFFER`.
pub const ATOMIC_COUNTER_BUFFER: u32 = 0x92C0;

/// `GL_DEBUG_OUTPUT`.
pub const DEBUG_OUTPUT: u32 = 0x92E0;

} // verus!
