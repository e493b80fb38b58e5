use opengl::{
    BaseFormat, BlendEquation, BlendFactor, Cap, CompareFunc, CompressedFormat, CullFace,
    FrameBufferAttachment, FrameBufferTarget, FrontFace, GlType, ImageFormat, ImageTarget,
    MinmapTarget, Mode, PixelDataType, RenderBufferFormat, ShaderType, SizedFormat, StencilOp,
    Target, TexTarget, TextureTarget, Usage,
};

#[test]
fn tex_target_matches_native_constants() {
    assert_eq!(TexTarget::Tex1D.to_gl_target(), gl::TEXTURE_1D);
    assert_eq!(TexTarget::Tex2D.to_gl_target(), gl::TEXTURE_2D);
    assert_eq!(TexTarget::Tex3D.to_gl_target(), gl::TEXTURE_3D);
    assert_eq!(TexTarget::Tex1DArray.to_gl_target(), gl::TEXTURE_1D_ARRAY);
    assert_eq!(TexTarget::Tex2DArray.to_gl_target(), gl::TEXTURE_2D_ARRAY);
    assert_eq!(TexTarget::TexRectangle.to_gl_target(), gl::TEXTURE_RECTANGLE);
    assert_eq!(TexTarget::TexCubeMap.to_gl_target(), gl::TEXTURE_CUBE_MAP);
    assert_eq!(TexTarget::TexCubeMapArray.to_gl_target(), gl::TEXTURE_CUBE_MAP_ARRAY);
    assert_eq!(TexTarget::TexBuffer.to_gl_target(), gl::TEXTURE_BUFFER);
    assert_eq!(TexTarget::Tex2DMultisample.to_gl_target(), gl::TEXTURE_2D_MULTISAMPLE);
    assert_eq!(TexTarget::Tex2DMultisampleArray.to_gl_target(), gl::TEXTURE_2D_MULTISAMPLE_ARRAY);
}

#[test]
fn minmap_target_matches_native_constants() {
    assert_eq!(MinmapTarget::Tex1D.to_gl_target(), gl::TEXTURE_1D);
    assert_eq!(MinmapTarget::Tex2D.to_gl_target(), gl::TEXTURE_2D);
    assert_eq!(MinmapTarget::Tex3D.to_gl_target(), gl::TEXTURE_3D);
    assert_eq!(MinmapTarget::Tex1DArray.to_gl_target(), gl::TEXTURE_1D_ARRAY);
    assert_eq!(MinmapTarget::Tex2DArray.to_gl_target(), gl::TEXTURE_2D_ARRAY);
    assert_eq!(MinmapTarget::TexCubeMap.to_gl_target(), gl::TEXTURE_CUBE_MAP);
    assert_eq!(MinmapTarget::TexCubeMapArray.to_gl_target(), gl::TEXTURE_CUBE_MAP_ARRAY);
}

#[test]
fn target_matches_native_constants() {
    assert_eq!(Target::Array.to_gl_target(), gl::ARRAY_BUFFER);
    assert_eq!(Target::AtomicCounter.to_gl_target(), gl::ATOMIC_COUNTER_BUFFER);
    assert_eq!(Target::CopyRead.to_gl_target(), gl::COPY_READ_BUFFER);
    assert_eq!(Target::CopyWrite.to_gl_target(), gl::COPY_WRITE_BUFFER);
    assert_eq!(Target::DispatchIndirect.to_gl_target(), gl::DISPATCH_INDIRECT_BUFFER);
    assert_eq!(Target::DrawIndirect.to_gl_target(), gl::DRAW_INDIRECT_BUFFER);
    assert_eq!(Target::ElementArray.to_gl_target(), gl::ELEMENT_ARRAY_BUFFER);
    assert_eq!(Target::PixelPack.to_gl_target(), gl::PIXEL_PACK_BUFFER);
    assert_eq!(Target::PixelUnpack.to_gl_target(), gl::PIXEL_UNPACK_BUFFER);
    assert_eq!(Target::Query.to_gl_target(), gl::QUERY_BUFFER);
    assert_eq!(Target::ShaderStorage.to_gl_target(), gl::SHADER_STORAGE_BUFFER);
    assert_eq!(Target::Texture.to_gl_target(), gl::TEXTURE_BUFFER);
    assert_eq!(Target::TransformFeedback.to_gl_target(), gl::TRANSFORM_FEEDBACK_BUFFER);
    assert_eq!(Target::Uniform.to_gl_target(), gl::UNIFORM_BUFFER);
}

#[test]
fn usage_matches_native_constants() {
    assert_eq!(Usage::StaticDraw.to_gl_usage(), gl::STATIC_DRAW);
    assert_eq!(Usage::StaticRead.to_gl_usage(), gl::STATIC_READ);
    assert_eq!(Usage::StaticCopy.to_gl_usage(), gl::STATIC_COPY);
    assert_eq!(Usage::StreamDraw.to_gl_usage(), gl::STREAM_DRAW);
    assert_eq!(Usage::StreamRead.to_gl_usage(), gl::STREAM_READ);
    assert_eq!(Usage::StreamCopy.to_gl_usage(), gl::STREAM_COPY);
    assert_eq!(Usage::DynamicDraw.to_gl_usage(), gl::DYNAMIC_DRAW);
    assert_eq!(Usage::DynamicRead.to_gl_usage(), gl::DYNAMIC_READ);
    assert_eq!(Usage::DynamicCopy.to_gl_usage(), gl::DYNAMIC_COPY);
}

#[test]
fn mode_matches_native_constants() {
    assert_eq!(Mode::Points.to_gl_mode(), gl::POINTS);
    assert_eq!(Mode::LineStrip.to_gl_mode(), gl::LINE_STRIP);
    assert_eq!(Mode::LineLoop.to_gl_mode(), gl::LINE_LOOP);
    assert_eq!(Mode::Lines.to_gl_mode(), gl::LINES);
    assert_eq!(Mode::LineStripAdjacency.to_gl_mode(), gl::LINE_STRIP_ADJACENCY);
    assert_eq!(Mode::LinesAdjacency.to_gl_mode(), gl::LINES_ADJACENCY);
    assert_eq!(Mode::TriangleStrip.to_gl_mode(), gl::TRIANGLE_STRIP);
    assert_eq!(Mode::TriangleFan.to_gl_mode(), gl::TRIANGLE_FAN);
    assert_eq!(Mode::Triangles.to_gl_mode(), gl::TRIANGLES);
    assert_eq!(Mode::TriangleStripAdjacency.to_gl_mode(), gl::TRIANGLE_STRIP_ADJACENCY);
    assert_eq!(Mode::TrianglesAdjacency.to_gl_mode(), gl::TRIANGLES_ADJACENCY);
    assert_eq!(Mode::Patches.to_gl_mode(), gl::PATCHES);
}

#[test]
fn cap_matches_native_constants() {
    assert_eq!(Cap::Blend.to_gl_cap(), gl::BLEND);
    assert_eq!(Cap::ClipDistance0.to_gl_cap(), gl::CLIP_DISTANCE0);
    assert_eq!(Cap::ClipDistance1.to_gl_cap(), gl::CLIP_DISTANCE1);
    assert_eq!(Cap::ClipDistance2.to_gl_cap(), gl::CLIP_DISTANCE2);
    assert_eq!(Cap::ClipDistance3.to_gl_cap(), gl::CLIP_DISTANCE3);
    assert_eq!(Cap::ClipDistance4.to_gl_cap(), gl::CLIP_DISTANCE4);
    assert_eq!(Cap::ClipDistance5.to_gl_cap(), gl::CLIP_DISTANCE5);
    assert_eq!(Cap::ClipDistance6.to_gl_cap(), gl::CLIP_DISTANCE6);
    assert_eq!(Cap::ClipDistance7.to_gl_cap(), gl::CLIP_DISTANCE7);
    assert_eq!(Cap::ColorLogicOp.to_gl_cap(), gl::COLOR_LOGIC_OP);
    assert_eq!(Cap::CullFace.to_gl_cap(), gl::CULL_FACE);
    assert_eq!(Cap::DebugOutput.to_gl_cap(), gl::DEBUG_OUTPUT);
    assert_eq!(Cap::DebugOutputSynchronous.to_gl_cap(), gl::DEBUG_OUTPUT_SYNCHRONOUS);
    assert_eq!(Cap::DepthClamp.to_gl_cap(), gl::DEPTH_CLAMP);
    assert_eq!(Cap::DepthTest.to_gl_cap(), gl::DEPTH_TEST);
    assert_eq!(Cap::Dither.to_gl_cap(), gl::DITHER);
    assert_eq!(Cap::FramebufferSrgb.to_gl_cap(), gl::FRAMEBUFFER_SRGB);
    assert_eq!(Cap::LineSmooth.to_gl_cap(), gl::LINE_SMOOTH);
    assert_eq!(Cap::Multisample.to_gl_cap(), gl::MULTISAMPLE);
    assert_eq!(Cap::PolygonOffsetFill.to_gl_cap(), gl::POLYGON_OFFSET_FILL);
    assert_eq!(Cap::PolygonOffsetLine.to_gl_cap(), gl::POLYGON_OFFSET_LINE);
    assert_eq!(Cap::PolygonOffsetPoint.to_gl_cap(), gl::POLYGON_OFFSET_POINT);
    assert_eq!(Cap::PolygonSmooth.to_gl_cap(), gl::POLYGON_SMOOTH);
    assert_eq!(Cap::PrimitiveRestart.to_gl_cap(), gl::PRIMITIVE_RESTART);
    assert_eq!(Cap::PrimitiveRestartFixedIndex.to_gl_cap(), gl::PRIMITIVE_RESTART_FIXED_INDEX);
    assert_eq!(Cap::RasterizerDiscard.to_gl_cap(), gl::RASTERIZER_DISCARD);
    assert_eq!(Cap::SampleAlphaToCoverage.to_gl_cap(), gl::SAMPLE_ALPHA_TO_COVERAGE);
    assert_eq!(Cap::SampleAlphaToOne.to_gl_cap(), gl::SAMPLE_ALPHA_TO_ONE);
    assert_eq!(Cap::SampleCoverage.to_gl_cap(), gl::SAMPLE_COVERAGE);
    assert_eq!(Cap::SampleShading.to_gl_cap(), gl::SAMPLE_SHADING);
    assert_eq!(Cap::SampleMask.to_gl_cap(), gl::SAMPLE_MASK);
    assert_eq!(Cap::ScissorTest.to_gl_cap(), gl::SCISSOR_TEST);
    assert_eq!(Cap::StencilTest.to_gl_cap(), gl::STENCIL_TEST);
    assert_eq!(Cap::TextureCubeMapSeamless.to_gl_cap(), gl::TEXTURE_CUBE_MAP_SEAMLESS);
    assert_eq!(Cap::ProgramPointSize.to_gl_cap(), gl::PROGRAM_POINT_SIZE);
}

#[test]
fn shader_type_matches_native_constants() {
    assert_eq!(ShaderType::Vertex.to_gl_type(), gl::VERTEX_SHADER);
    assert_eq!(ShaderType::Fragmet.to_gl_type(), gl::FRAGMENT_SHADER);
    assert_eq!(ShaderType::Geometry.to_gl_type(), gl::GEOMETRY_SHADER);
    assert_eq!(ShaderType::TessControl.to_gl_type(), gl::TESS_CONTROL_SHADER);
    assert_eq!(ShaderType::TessEvaluation.to_gl_type(), gl::TESS_EVALUATION_SHADER);
    assert_eq!(ShaderType::Compute.to_gl_type(), gl::COMPUTE_SHADER);
}

#[test]
fn image_target_matches_native_constants() {
    assert_eq!(ImageTarget::Tex2d.to_gl_target(), gl::TEXTURE_2D);
    assert_eq!(ImageTarget::ProxyTex2d.to_gl_target(), gl::PROXY_TEXTURE_2D);
    assert_eq!(ImageTarget::Tex1dArray.to_gl_target(), gl::TEXTURE_1D_ARRAY);
    assert_eq!(ImageTarget::ProxyTex1dArray.to_gl_target(), gl::PROXY_TEXTURE_1D_ARRAY);
    assert_eq!(ImageTarget::TexRectangle.to_gl_target(), gl::TEXTURE_RECTANGLE);
    assert_eq!(ImageTarget::ProxyTexRectangle.to_gl_target(), gl::PROXY_TEXTURE_RECTANGLE);
    assert_eq!(ImageTarget::TexCubeMapPositiveX.to_gl_target(), gl::TEXTURE_CUBE_MAP_POSITIVE_X);
    assert_eq!(ImageTarget::TexCubeMapNegativeX.to_gl_target(), gl::TEXTURE_CUBE_MAP_NEGATIVE_X);
    assert_eq!(ImageTarget::TexCubeMapPositiveY.to_gl_target(), gl::TEXTURE_CUBE_MAP_POSITIVE_Y);
    assert_eq!(ImageTarget::TexCubeMapNegativeY.to_gl_target(), gl::TEXTURE_CUBE_MAP_NEGATIVE_Y);
    assert_eq!(ImageTarget::TexCubeMapPositiveZ.to_gl_target(), gl::TEXTURE_CUBE_MAP_POSITIVE_Z);
    assert_eq!(ImageTarget::TexCubeMapNegativeZ.to_gl_target(), gl::TEXTURE_CUBE_MAP_NEGATIVE_Z);
    assert_eq!(ImageTarget::ProxyTexCubeMap.to_gl_target(), gl::PROXY_TEXTURE_CUBE_MAP);
}

#[test]
fn base_format_matches_native_constants() {
    assert_eq!(BaseFormat::Red.to_gl_format(), gl::RED);
    assert_eq!(BaseFormat::RG.to_gl_format(), gl::RG);
    assert_eq!(BaseFormat::RGB.to_gl_format(), gl::RGB);
    assert_eq!(BaseFormat::RGBA.to_gl_format(), gl::RGBA);
    assert_eq!(BaseFormat::DepthComponent.to_gl_format(), gl::DEPTH_COMPONENT);
    assert_eq!(BaseFormat::DepthStencil.to_gl_format(), gl::DEPTH_STENCIL);
}

#[test]
fn sized_format_matches_native_constants() {
    assert_eq!(SizedFormat::R8.to_gl_format(), gl::R8);
    assert_eq!(SizedFormat::R8_SNORM.to_gl_format(), gl::R8_SNORM);
    assert_eq!(SizedFormat::R16.to_gl_format(), gl::R16);
    assert_eq!(SizedFormat::R16_SNORM.to_gl_format(), gl::R16_SNORM);
    assert_eq!(SizedFormat::RG8.to_gl_format(), gl::RG8);
    assert_eq!(SizedFormat::RG8_SNORM.to_gl_format(), gl::RG8_SNORM);
    assert_eq!(SizedFormat::RG16.to_gl_format(), gl::RG16);
    assert_eq!(SizedFormat::RG16_SNORM.to_gl_format(), gl::RG16_SNORM);
    assert_eq!(SizedFormat::R3_G3_B2.to_gl_format(), gl::R3_G3_B2);
    assert_eq!(SizedFormat::RGB4.to_gl_format(), gl::RGB4);
    assert_eq!(SizedFormat::RGB5.to_gl_format(), gl::RGB5);
    assert_eq!(SizedFormat::RGB8.to_gl_format(), gl::RGB8);
    assert_eq!(SizedFormat::RGB8_SNORM.to_gl_format(), gl::RGB8_SNORM);
    assert_eq!(SizedFormat::RGB10.to_gl_format(), gl::RGB10);
    assert_eq!(SizedFormat::RGB12.to_gl_format(), gl::RGB12);
    assert_eq!(SizedFormat::RGB16_SNORM.to_gl_format(), gl::RGB16_SNORM);
    assert_eq!(SizedFormat::RGBA2.to_gl_format(), gl::RGBA2);
    assert_eq!(SizedFormat::RGBA4.to_gl_format(), gl::RGBA4);
    assert_eq!(SizedFormat::RGB5_A1.to_gl_format(), gl::RGB5_A1);
    assert_eq!(SizedFormat::RGBA8.to_gl_format(), gl::RGBA8);
    assert_eq!(SizedFormat::RGBA8_SNORM.to_gl_format(), gl::RGBA8_SNORM);
    assert_eq!(SizedFormat::RGB10_A2.to_gl_format(), gl::RGB10_A2);
    assert_eq!(SizedFormat::RGB10_A2UI.to_gl_format(), gl::RGB10_A2UI);
    assert_eq!(SizedFormat::RGBA12.to_gl_format(), gl::RGBA12);
    assert_eq!(SizedFormat::RGBA16.to_gl_format(), gl::RGBA16);
    assert_eq!(SizedFormat::SRGB8.to_gl_format(), gl::SRGB8);
    assert_eq!(SizedFormat::SRGB8_ALPHA8.to_gl_format(), gl::SRGB8_ALPHA8);
    assert_eq!(SizedFormat::R16F.to_gl_format(), gl::R16F);
    assert_eq!(SizedFormat::RG16F.to_gl_format(), gl::RG16F);
    assert_eq!(SizedFormat::RGB16F.to_gl_format(), gl::RGB16F);
    assert_eq!(SizedFormat::RGBA16F.to_gl_format(), gl::RGBA16F);
    assert_eq!(SizedFormat::R32F.to_gl_format(), gl::R32F);
    assert_eq!(SizedFormat::RG32F.to_gl_format(), gl::RG32F);
    assert_eq!(SizedFormat::RGB32F.to_gl_format(), gl::RGB32F);
    assert_eq!(SizedFormat::RGBA32F.to_gl_format(), gl::RGBA32F);
    assert_eq!(SizedFormat::R11F_G11F_B10F.to_gl_format(), gl::R11F_G11F_B10F);
    assert_eq!(SizedFormat::RGB9_E5.to_gl_format(), gl::RGB9_E5);
    assert_eq!(SizedFormat::R8I.to_gl_format(), gl::R8I);
    assert_eq!(SizedFormat::R8UI.to_gl_format(), gl::R8UI);
    assert_eq!(SizedFormat::R16I.to_gl_format(), gl::R16I);
    assert_eq!(SizedFormat::R16UI.to_gl_format(), gl::R16UI);
    assert_eq!(SizedFormat::R32I.to_gl_format(), gl::R32I);
    assert_eq!(SizedFormat::R32UI.to_gl_format(), gl::R32UI);
    assert_eq!(SizedFormat::RG8I.to_gl_format(), gl::RG8I);
    assert_eq!(SizedFormat::RG8UI.to_gl_format(), gl::RG8UI);
    assert_eq!(SizedFormat::RG16I.to_gl_format(), gl::RG16I);
    assert_eq!(SizedFormat::RG16UI.to_gl_format(), gl::RG16UI);
    assert_eq!(SizedFormat::RG32I.to_gl_format(), gl::RG32I);
    assert_eq!(SizedFormat::RG32UI.to_gl_format(), gl::RG32UI);
    assert_eq!(SizedFormat::RGB8I.to_gl_format(), gl::RGB8I);
    assert_eq!(SizedFormat::RGB8UI.to_gl_format(), gl::RGB8UI);
    assert_eq!(SizedFormat::RGB16I.to_gl_format(), gl::RGB16I);
    assert_eq!(SizedFormat::RGB16UI.to_gl_format(), gl::RGB16UI);
    assert_eq!(SizedFormat::RGB32I.to_gl_format(), gl::RGB32I);
    assert_eq!(SizedFormat::RGB32UI.to_gl_format(), gl::RGB32UI);
    assert_eq!(SizedFormat::RGBA8I.to_gl_format(), gl::RGBA8I);
    assert_eq!(SizedFormat::RGBA8UI.to_gl_format(), gl::RGBA8UI);
    assert_eq!(SizedFormat::RGBA16I.to_gl_format(), gl::RGBA16I);
    assert_eq!(SizedFormat::RGBA16UI.to_gl_format(), gl::RGBA16UI);
    assert_eq!(SizedFormat::RGBA32I.to_gl_format(), gl::RGBA32I);
    assert_eq!(SizedFormat::RGBA32UI.to_gl_format(), gl::RGBA32UI);
}

#[test]
fn compressed_format_matches_native_constants() {
    assert_eq!(CompressedFormat::RED.to_gl_format(), gl::COMPRESSED_RED);
    assert_eq!(CompressedFormat::RG.to_gl_format(), gl::COMPRESSED_RG);
    assert_eq!(CompressedFormat::RGB.to_gl_format(), gl::COMPRESSED_RGB);
    assert_eq!(CompressedFormat::RGBA.to_gl_format(), gl::COMPRESSED_RGBA);
    assert_eq!(CompressedFormat::SRGB.to_gl_format(), gl::COMPRESSED_SRGB);
    assert_eq!(CompressedFormat::SRGB_ALPHA.to_gl_format(), gl::COMPRESSED_SRGB_ALPHA);
    assert_eq!(CompressedFormat::RED_RGTC1.to_gl_format(), gl::COMPRESSED_RED_RGTC1);
    assert_eq!(CompressedFormat::SIGNED_RED_RGTC1.to_gl_format(), gl::COMPRESSED_SIGNED_RED_RGTC1);
    assert_eq!(CompressedFormat::RG_RGTC2.to_gl_format(), gl::COMPRESSED_RG_RGTC2);
    assert_eq!(CompressedFormat::SIGNED_RG_RGTC2.to_gl_format(), gl::COMPRESSED_SIGNED_RG_RGTC2);
    assert_eq!(CompressedFormat::RGBA_BPTC_UNORM.to_gl_format(), gl::COMPRESSED_RGBA_BPTC_UNORM);
    assert_eq!(CompressedFormat::SRGB_ALPHA_BPTC_UNORM.to_gl_format(), gl::COMPRESSED_SRGB_ALPHA_BPTC_UNORM);
    assert_eq!(CompressedFormat::RGB_BPTC_SIGNED_FLOAT.to_gl_format(), gl::COMPRESSED_RGB_BPTC_SIGNED_FLOAT);
    assert_eq!(CompressedFormat::RGB_BPTC_UNSIGNED_FLOAT.to_gl_format(), gl::COMPRESSED_RGB_BPTC_UNSIGNED_FLOAT);
}

#[test]
fn image_format_matches_native_constants() {
    assert_eq!(ImageFormat::Red.to_gl_format(), gl::RED);
    assert_eq!(ImageFormat::RG.to_gl_format(), gl::RG);
    assert_eq!(ImageFormat::RGB.to_gl_format(), gl::RGB);
    assert_eq!(ImageFormat::BGR.to_gl_format(), gl::BGR);
    assert_eq!(ImageFormat::RGBA.to_gl_format(), gl::RGBA);
    assert_eq!(ImageFormat::BGRA.to_gl_format(), gl::BGRA);
    assert_eq!(ImageFormat::DepthComponent.to_gl_format(), gl::DEPTH_COMPONENT);
    assert_eq!(ImageFormat::DepthStencil.to_gl_format(), gl::DEPTH_STENCIL);
}

#[test]
fn pixel_data_type_matches_native_constants() {
    assert_eq!(PixelDataType::u8.to_gl_type(), gl::UNSIGNED_BYTE);
    assert_eq!(PixelDataType::i8.to_gl_type(), gl::BYTE);
    assert_eq!(PixelDataType::u16.to_gl_type(), gl::UNSIGNED_SHORT);
    assert_eq!(PixelDataType::i16.to_gl_type(), gl::SHORT);
    assert_eq!(PixelDataType::u32.to_gl_type(), gl::UNSIGNED_INT);
    assert_eq!(PixelDataType::i32.to_gl_type(), gl::INT);
    assert_eq!(PixelDataType::F32.to_gl_type(), gl::FLOAT);
    assert_eq!(PixelDataType::HalfFloat.to_gl_type(), gl::HALF_FLOAT);
    assert_eq!(PixelDataType::u8_3_3_2.to_gl_type(), gl::UNSIGNED_BYTE_3_3_2);
    assert_eq!(PixelDataType::u8_2_3_3_REV.to_gl_type(), gl::UNSIGNED_BYTE_2_3_3_REV);
    assert_eq!(PixelDataType::u16_5_6_5.to_gl_type(), gl::UNSIGNED_SHORT_5_6_5);
    assert_eq!(PixelDataType::u16_5_6_5_REV.to_gl_type(), gl::UNSIGNED_SHORT_5_6_5_REV);
    assert_eq!(PixelDataType::u16_4_4_4_4.to_gl_type(), gl::UNSIGNED_SHORT_4_4_4_4);
    assert_eq!(PixelDataType::u16_4_4_4_4_REV.to_gl_type(), gl::UNSIGNED_SHORT_4_4_4_4_REV);
    assert_eq!(PixelDataType::u16_5_5_5_1.to_gl_type(), gl::UNSIGNED_SHORT_5_5_5_1);
    assert_eq!(PixelDataType::u16_1_5_5_5_REV.to_gl_type(), gl::UNSIGNED_SHORT_1_5_5_5_REV);
    assert_eq!(PixelDataType::u32_8_8_8_8.to_gl_type(), gl::UNSIGNED_INT_8_8_8_8);
    assert_eq!(PixelDataType::u32_8_8_8_8_REV.to_gl_type(), gl::UNSIGNED_INT_8_8_8_8_REV);
    assert_eq!(PixelDataType::u32_10_10_10_2.to_gl_type(), gl::UNSIGNED_INT_10_10_10_2);
    assert_eq!(PixelDataType::u32_2_10_10_10_REV.to_gl_type(), gl::UNSIGNED_INT_2_10_10_10_REV);
}

#[test]
fn compare_func_matches_native_constants() {
    assert_eq!(CompareFunc::Never.to_gl_func(), gl::NEVER);
    assert_eq!(CompareFunc::Less.to_gl_func(), gl::LESS);
    assert_eq!(CompareFunc::Equal.to_gl_func(), gl::EQUAL);
    assert_eq!(CompareFunc::LessEqual.to_gl_func(), gl::LEQUAL);
    assert_eq!(CompareFunc::Greater.to_gl_func(), gl::GREATER);
    assert_eq!(CompareFunc::NotEqual.to_gl_func(), gl::NOTEQUAL);
    assert_eq!(CompareFunc::GreaterEqual.to_gl_func(), gl::GEQUAL);
    assert_eq!(CompareFunc::Always.to_gl_func(), gl::ALWAYS);
}

#[test]
fn stencil_op_matches_native_constants() {
    assert_eq!(StencilOp::Keep.to_gl_op(), gl::KEEP);
    assert_eq!(StencilOp::Zero.to_gl_op(), gl::ZERO);
    assert_eq!(StencilOp::Replace.to_gl_op(), gl::REPLACE);
    assert_eq!(StencilOp::Incr.to_gl_op(), gl::INCR);
    assert_eq!(StencilOp::IncrWrap.to_gl_op(), gl::INCR_WRAP);
    assert_eq!(StencilOp::Decr.to_gl_op(), gl::DECR);
    assert_eq!(StencilOp::DecrWrap.to_gl_op(), gl::DECR_WRAP);
    assert_eq!(StencilOp::Invert.to_gl_op(), gl::INVERT);
}

#[test]
fn blend_factor_matches_native_constants() {
    assert_eq!(BlendFactor::Zero.to_gl_func(), gl::ZERO);
    assert_eq!(BlendFactor::One.to_gl_func(), gl::ONE);
    assert_eq!(BlendFactor::SrcColor.to_gl_func(), gl::SRC_COLOR);
    assert_eq!(BlendFactor::OneMinusSrcColor.to_gl_func(), gl::ONE_MINUS_SRC_COLOR);
    assert_eq!(BlendFactor::DstColor.to_gl_func(), gl::DST_COLOR);
    assert_eq!(BlendFactor::OneMinusDstColor.to_gl_func(), gl::ONE_MINUS_DST_COLOR);
    assert_eq!(BlendFactor::SrcAlpha.to_gl_func(), gl::SRC_ALPHA);
    assert_eq!(BlendFactor::OneMinusSrcAlpha.to_gl_func(), gl::ONE_MINUS_SRC_ALPHA);
    assert_eq!(BlendFactor::DstAlpha.to_gl_func(), gl::DST_ALPHA);
    assert_eq!(BlendFactor::OneMinusDstAlpha.to_gl_func(), gl::ONE_MINUS_DST_ALPHA);
    assert_eq!(BlendFactor::ConstantColor.to_gl_func(), gl::CONSTANT_COLOR);
    assert_eq!(BlendFactor::OneMinusConstantColor.to_gl_func(), gl::ONE_MINUS_CONSTANT_COLOR);
    assert_eq!(BlendFactor::ConstantAlpha.to_gl_func(), gl::CONSTANT_ALPHA);
    assert_eq!(BlendFactor::OneMinusConstantAlpha.to_gl_func(), gl::ONE_MINUS_CONSTANT_ALPHA);
}

#[test]
fn blend_equation_matches_native_constants() {
    assert_eq!(BlendEquation::FuncAdd.to_gl_equation(), gl::FUNC_ADD);
    assert_eq!(BlendEquation::FuncSubtract.to_gl_equation(), gl::FUNC_SUBTRACT);
    assert_eq!(BlendEquation::FuncReverseSubtract.to_gl_equation(), gl::FUNC_REVERSE_SUBTRACT);
    assert_eq!(BlendEquation::Min.to_gl_equation(), gl::MIN);
    assert_eq!(BlendEquation::Max.to_gl_equation(), gl::MAX);
}

#[test]
fn cull_face_matches_native_constants() {
    assert_eq!(CullFace::Front.to_gl_face(), gl::FRONT);
    assert_eq!(CullFace::Back.to_gl_face(), gl::BACK);
    assert_eq!(CullFace::FrontAndBack.to_gl_face(), gl::FRONT_AND_BACK);
}

#[test]
fn front_face_matches_native_constants() {
    assert_eq!(FrontFace::Clockwise.to_gl_face(), gl::CW);
    assert_eq!(FrontFace::CounterClockwise.to_gl_face(), gl::CCW);
}

#[test]
fn frame_buffer_target_matches_native_constants() {
    assert_eq!(FrameBufferTarget::Read.to_gl_target(), gl::READ_FRAMEBUFFER);
    assert_eq!(FrameBufferTarget::Draw.to_gl_target(), gl::DRAW_FRAMEBUFFER);
    assert_eq!(FrameBufferTarget::ReadDraw.to_gl_target(), gl::FRAMEBUFFER);
}

#[test]
fn frame_buffer_attachment_matches_native_constants() {
    assert_eq!(FrameBufferAttachment::Color.to_gl_attachment(), gl::COLOR_ATTACHMENT0);
    assert_eq!(FrameBufferAttachment::Depth.to_gl_attachment(), gl::DEPTH_ATTACHMENT);
    assert_eq!(FrameBufferAttachment::Stencil.to_gl_attachment(), gl::STENCIL_ATTACHMENT);
    assert_eq!(FrameBufferAttachment::DepthStencil.to_gl_attachment(), gl::DEPTH_STENCIL_ATTACHMENT);
}

#[test]
fn texture_target_matches_native_constants() {
    assert_eq!(TextureTarget::Tex2d.to_gl_enum(), gl::TEXTURE_2D);
    assert_eq!(TextureTarget::Tex2dMultisample.to_gl_enum(), gl::TEXTURE_2D_MULTISAMPLE);
    assert_eq!(TextureTarget::TexCubeMapPositiveX.to_gl_enum(), gl::TEXTURE_CUBE_MAP_POSITIVE_X);
    assert_eq!(TextureTarget::TexCubeMapNegativeX.to_gl_enum(), gl::TEXTURE_CUBE_MAP_NEGATIVE_X);
    assert_eq!(TextureTarget::TexCubeMapPositiveY.to_gl_enum(), gl::TEXTURE_CUBE_MAP_POSITIVE_Y);
    assert_eq!(TextureTarget::TexCubeMapNegativeY.to_gl_enum(), gl::TEXTURE_CUBE_MAP_NEGATIVE_Y);
    assert_eq!(TextureTarget::TexCubeMapPositiveZ.to_gl_enum(), gl::TEXTURE_CUBE_MAP_POSITIVE_Z);
    assert_eq!(TextureTarget::TexCubeMapNegativeZ.to_gl_enum(), gl::TEXTURE_CUBE_MAP_NEGATIVE_Z);
}

#[test]
fn render_buffer_format_matches_native_constants() {
    assert_eq!(RenderBufferFormat::R8.to_gl_format(), gl::R8);
    assert_eq!(RenderBufferFormat::R8UI.to_gl_format(), gl::R8UI);
    assert_eq!(RenderBufferFormat::R8I.to_gl_format(), gl::R8I);
    assert_eq!(RenderBufferFormat::R16UI.to_gl_format(), gl::R16UI);
    assert_eq!(RenderBufferFormat::R16I.to_gl_format(), gl::R16I);
    assert_eq!(RenderBufferFormat::R32UI.to_gl_format(), gl::R32UI);
    assert_eq!(RenderBufferFormat::R32I.to_gl_format(), gl::R32I);
    assert_eq!(RenderBufferFormat::RG8.to_gl_format(), gl::RG8);
    assert_eq!(RenderBufferFormat::RG8UI.to_gl_format(), gl::RG8UI);
    assert_eq!(RenderBufferFormat::RG8I.to_gl_format(), gl::RG8I);
    assert_eq!(RenderBufferFormat::RG16UI.to_gl_format(), gl::RG16UI);
    assert_eq!(RenderBufferFormat::RG16I.to_gl_format(), gl::RG16I);
    assert_eq!(RenderBufferFormat::RG32UI.to_gl_format(), gl::RG32UI);
    assert_eq!(RenderBufferFormat::RG32I.to_gl_format(), gl::RG32I);
    assert_eq!(RenderBufferFormat::RGB8.to_gl_format(), gl::RGB8);
    assert_eq!(RenderBufferFormat::RGB565.to_gl_format(), gl::RGB565);
    assert_eq!(RenderBufferFormat::RGBA8.to_gl_format(), gl::RGBA8);
    assert_eq!(RenderBufferFormat::SRGB8_ALPHA8.to_gl_format(), gl::SRGB8_ALPHA8);
    assert_eq!(RenderBufferFormat::RGB5_A1.to_gl_format(), gl::RGB5_A1);
    assert_eq!(RenderBufferFormat::RGBA4.to_gl_format(), gl::RGBA4);
    assert_eq!(RenderBufferFormat::RGB10_A2.to_gl_format(), gl::RGB10_A2);
    assert_eq!(RenderBufferFormat::RGBA8UI.to_gl_format(), gl::RGBA8UI);
    assert_eq!(RenderBufferFormat::RGBA8I.to_gl_format(), gl::RGBA8I);
    assert_eq!(RenderBufferFormat::RGB10_A2UI.to_gl_format(), gl::RGB10_A2UI);
    assert_eq!(RenderBufferFormat::RGBA16UI.to_gl_format(), gl::RGBA16UI);
    assert_eq!(RenderBufferFormat::RGBA16I.to_gl_format(), gl::RGBA16I);
    assert_eq!(RenderBufferFormat::RGBA32I.to_gl_format(), gl::RGBA32I);
    assert_eq!(RenderBufferFormat::RGBA32UI.to_gl_format(), gl::RGBA32UI);
    assert_eq!(RenderBufferFormat::DEPTH_COMPONENT16.to_gl_format(), gl::DEPTH_COMPONENT16);
    assert_eq!(RenderBufferFormat::DEPTH_COMPONENT24.to_gl_format(), gl::DEPTH_COMPONENT24);
    assert_eq!(RenderBufferFormat::DEPTH_COMPONENT32F.to_gl_format(), gl::DEPTH_COMPONENT32F);
    assert_eq!(RenderBufferFormat::DEPTH24_STENCIL8.to_gl_format(), gl::DEPTH24_STENCIL8);
    assert_eq!(RenderBufferFormat::DEPTH32F_STENCIL8.to_gl_format(), gl::DEPTH32F_STENCIL8);
    assert_eq!(RenderBufferFormat::STENCIL_INDEX.to_gl_format(), gl::STENCIL_INDEX);
}

#[test]
fn gl_type_matches_native_constants() {
    assert_eq!(GlType::u8.to_gl_type(), gl::UNSIGNED_BYTE);
    assert_eq!(GlType::i8.to_gl_type(), gl::BYTE);
    assert_eq!(GlType::u16.to_gl_type(), gl::UNSIGNED_SHORT);
    assert_eq!(GlType::i16.to_gl_type(), gl::SHORT);
    assert_eq!(GlType::u32.to_gl_type(), gl::UNSIGNED_INT);
    assert_eq!(GlType::i32.to_gl_type(), gl::INT);
    assert_eq!(GlType::F32.to_gl_type(), gl::FLOAT);
    assert_eq!(GlType::F64.to_gl_type(), gl::DOUBLE);
}
