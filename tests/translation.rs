use opengl::{
    Attachmect, BaseFormat, CompareFunc, CompareMode, CompressedFormat, DepthMode, Filter,
    GlType, ImageTarget, InternalFormat, Mask, MinFilter, SizedFormat, Swizzle, TexCubeMap,
    TexParam, TexParamPair, Wrap,
};

#[test]
fn internal_format_uses_the_inner_table() {
    assert_eq!(InternalFormat::Base(BaseFormat::RGBA).to_gl_format(), gl::RGBA);
    assert_eq!(InternalFormat::Sized(SizedFormat::RGBA8).to_gl_format(), gl::RGBA8);
    assert_eq!(
        InternalFormat::Compressed(CompressedFormat::RG_RGTC2).to_gl_format(),
        gl::COMPRESSED_RG_RGTC2
    );
}

#[test]
fn attachment_points_are_numbered_from_the_first_colour_attachment() {
    assert_eq!(Attachmect::Color(0).to_gl_attachment(), gl::COLOR_ATTACHMENT0);
    assert_eq!(Attachmect::Color(3).to_gl_attachment(), gl::COLOR_ATTACHMENT3);
    assert_eq!(Attachmect::Color(31).to_gl_attachment(), gl::COLOR_ATTACHMENT31);
    assert_eq!(Attachmect::Depth.to_gl_attachment(), gl::DEPTH_ATTACHMENT);
    assert_eq!(Attachmect::Stencil.to_gl_attachment(), gl::STENCIL_ATTACHMENT);
    assert_eq!(Attachmect::DepthStencil.to_gl_attachment(), gl::DEPTH_STENCIL_ATTACHMENT);
}

#[test]
fn filters_and_masks_match_native_constants() {
    assert_eq!(Filter::Nearest.to_gl_filter(), gl::NEAREST);
    assert_eq!(Filter::Linear.to_gl_filter(), gl::LINEAR);
    assert_eq!(Mask::COLOR_BUFFER_BIT, gl::COLOR_BUFFER_BIT);
    assert_eq!(Mask::DEPTH_BUFFER_BIT, gl::DEPTH_BUFFER_BIT);
    assert_eq!(Mask::STENCIL_BUFFER_BIT, gl::STENCIL_BUFFER_BIT);
}

#[test]
fn scalar_sizes_match_the_rust_types() {
    assert_eq!(GlType::u8.size(), std::mem::size_of::<u8>());
    assert_eq!(GlType::i8.size(), std::mem::size_of::<i8>());
    assert_eq!(GlType::u16.size(), std::mem::size_of::<u16>());
    assert_eq!(GlType::i16.size(), std::mem::size_of::<i16>());
    assert_eq!(GlType::u32.size(), std::mem::size_of::<u32>());
    assert_eq!(GlType::i32.size(), std::mem::size_of::<i32>());
    assert_eq!(GlType::F32.size(), std::mem::size_of::<f32>());
    assert_eq!(GlType::F64.size(), std::mem::size_of::<f64>());
}

#[test]
fn texture_parameters_become_name_value_pairs() {
    assert_eq!(
        TexParam::DepthStencilMode(DepthMode::Index).to_pair(),
        TexParamPair::GLi(gl::DEPTH_STENCIL_TEXTURE_MODE, gl::STENCIL_INDEX as i32)
    );
    assert_eq!(
        TexParam::BaseLevel(3).to_pair(),
        TexParamPair::GLi(gl::TEXTURE_BASE_LEVEL, 3)
    );
    assert_eq!(
        TexParam::CompareFunc(CompareFunc::LessEqual).to_pair(),
        TexParamPair::GLi(gl::TEXTURE_COMPARE_FUNC, gl::LEQUAL as i32)
    );
    assert_eq!(
        TexParam::CompareMode(CompareMode::NoCompare).to_pair(),
        TexParamPair::GLi(gl::TEXTURE_COMPARE_MODE, gl::NONE as i32)
    );
    assert_eq!(
        TexParam::LodBias(1.5f32.to_bits()).to_pair(),
        TexParamPair::GLf(gl::TEXTURE_LOD_BIAS, 1.5f32.to_bits())
    );
    assert_eq!(
        TexParam::MinFilter(MinFilter::LinearMipmapLinear).to_pair(),
        TexParamPair::GLi(gl::TEXTURE_MIN_FILTER, gl::LINEAR_MIPMAP_LINEAR as i32)
    );
    assert_eq!(
        TexParam::MaxLod(8.0f32.to_bits()).to_pair(),
        TexParamPair::GLf(gl::TEXTURE_MAX_LOD, 8.0f32.to_bits())
    );
    assert_eq!(
        TexParam::SwizzleRGBA(Swizzle::Blue, Swizzle::Green, Swizzle::Red, Swizzle::One)
            .to_pair(),
        TexParamPair::GLiv(
            gl::TEXTURE_SWIZZLE_RGBA,
            (gl::BLUE as i32, gl::GREEN as i32, gl::RED as i32, gl::ONE as i32)
        )
    );
    assert_eq!(
        TexParam::WrapT(Wrap::MirrorClampToEdge).to_pair(),
        TexParamPair::GLi(gl::TEXTURE_WRAP_T, gl::MIRROR_CLAMP_TO_EDGE as i32)
    );
}

#[test]
fn cube_map_walks_six_faces_once() {
    let mut faces = TexCubeMap::new();
    assert_eq!(faces.next(), Some(ImageTarget::TexCubeMapPositiveX));
    assert_eq!(faces.next(), Some(ImageTarget::TexCubeMapNegativeX));
    assert_eq!(faces.next(), Some(ImageTarget::TexCubeMapPositiveY));
    assert_eq!(faces.next(), Some(ImageTarget::TexCubeMapNegativeY));
    assert_eq!(faces.next(), Some(ImageTarget::TexCubeMapPositiveZ));
    assert_eq!(faces.next(), Some(ImageTarget::TexCubeMapNegativeZ));
    assert_eq!(faces.next(), None);
    assert_eq!(faces.next(), None);
}

#[test]
fn two_dimensional_array_targets_are_distinct_from_one_dimensional_ones() {
    assert_ne!(
        opengl::TexTarget::Tex2DArray.to_gl_target(),
        opengl::TexTarget::Tex1DArray.to_gl_target()
    );
    assert_ne!(
        opengl::FrameBufferTarget::ReadDraw.to_gl_target(),
        opengl::FrameBufferTarget::Read.to_gl_target()
    );
}
