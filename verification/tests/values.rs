//! The value types and their immediate-mode translations.

use wgpu_webgl::format::TextureFormat;
use wgpu_webgl::format::VertexFormat;
use wgpu_webgl::gl;
use wgpu_webgl::types::BlendFactor;
use wgpu_webgl::types::BlendOperation;
use wgpu_webgl::types::BlendState;
use wgpu_webgl::types::CompareFunction;
use wgpu_webgl::types::CullMode;
use wgpu_webgl::types::FilterMode;
use wgpu_webgl::types::IndexFormat;
use wgpu_webgl::types::MipmapFilterMode;
use wgpu_webgl::types::PrimitiveTopology;
use wgpu_webgl::types::SamplerCompareFunction;

#[test]
fn vertex_formats_report_size_components_and_kind() {
    assert_eq!(VertexFormat::Float32x3.size(), 12);
    assert_eq!(VertexFormat::Float32x3.components(), 3);
    assert_eq!(VertexFormat::Float32x3.gl_type(), gl::FLOAT);
    assert_eq!(VertexFormat::Uint8x4.size(), 4);
    assert_eq!(VertexFormat::Uint8x4.gl_type(), gl::UNSIGNED_BYTE);
    assert_eq!(VertexFormat::Float16x2.size(), 4);
    assert_eq!(VertexFormat::Float16x2.gl_type(), gl::HALF_FLOAT);
    assert!(VertexFormat::Unorm8x4.normalized());
    assert!(!VertexFormat::Float32.normalized());
    assert!(VertexFormat::Uint32.is_integer());
    assert!(!VertexFormat::Snorm16x2.is_integer());
}

#[test]
fn topologies_translate_to_draw_modes() {
    assert_eq!(PrimitiveTopology::PointList.to_gl(), gl::POINTS);
    assert_eq!(PrimitiveTopology::TriangleList.to_gl(), gl::TRIANGLES);
    assert_eq!(PrimitiveTopology::TriangleStrip.to_gl(), gl::TRIANGLE_STRIP);
}

#[test]
fn index_formats_translate_and_size() {
    assert_eq!(IndexFormat::Uint16.to_gl(), gl::UNSIGNED_SHORT);
    assert_eq!(IndexFormat::Uint32.to_gl(), gl::UNSIGNED_INT);
    assert_eq!(IndexFormat::Uint16.byte_size(), 2);
    assert_eq!(IndexFormat::Uint32.byte_size(), 4);
}

#[test]
fn compare_and_cull_translate() {
    assert_eq!(CompareFunction::LessEqual.to_gl(), gl::LEQUAL);
    assert_eq!(CompareFunction::Always.to_gl(), gl::ALWAYS);
    assert_eq!(CullMode::NoCulling.to_gl(), None);
    assert_eq!(CullMode::Back.to_gl(), Some(gl::BACK));
}

#[test]
fn filters_translate_with_their_mipmap_mode() {
    assert_eq!(FilterMode::Linear.to_gl_mag(), gl::LINEAR);
    assert_eq!(
        FilterMode::Linear.to_gl_min(MipmapFilterMode::Nearest),
        gl::LINEAR_MIPMAP_NEAREST
    );
    assert_eq!(
        FilterMode::Nearest.to_gl_min(MipmapFilterMode::Linear),
        gl::NEAREST_MIPMAP_LINEAR
    );
    assert_eq!(SamplerCompareFunction::NoCompare.to_gl(), None);
    assert_eq!(SamplerCompareFunction::LessEqual.to_gl(), Some(gl::LEQUAL));
}

#[test]
fn blending_is_off_exactly_for_overwrite() {
    let overwrite = BlendState::new(
        BlendOperation::Add,
        BlendFactor::One,
        BlendFactor::Zero,
        BlendOperation::Add,
        BlendFactor::One,
        BlendFactor::Zero,
    );
    assert!(!overwrite.is_enabled());
    let alpha = BlendState::new(
        BlendOperation::Add,
        BlendFactor::SrcAlpha,
        BlendFactor::OneMinusSrcAlpha,
        BlendOperation::Add,
        BlendFactor::One,
        BlendFactor::OneMinusSrcAlpha,
    );
    assert!(alpha.is_enabled());
    assert_eq!(BlendFactor::SrcAlpha.to_gl(), gl::SRC_ALPHA);
    assert_eq!(BlendOperation::ReverseSubtract.to_gl(), gl::FUNC_REVERSE_SUBTRACT);
}

#[test]
fn texture_formats_translate_for_storage_and_upload() {
    assert_eq!(TextureFormat::Rgba8Unorm.gl_internal_format(), gl::RGBA8);
    assert_eq!(TextureFormat::Rgba8Unorm.gl_format(), gl::RGBA);
    assert_eq!(TextureFormat::Rgba8Unorm.gl_type(), gl::UNSIGNED_BYTE);
    // the blue-green-swapped format stores as the plain four-channel format
    assert_eq!(TextureFormat::Bgra8Unorm.gl_internal_format(), gl::RGBA8);
    assert_eq!(TextureFormat::Depth24Plus.gl_internal_format(), gl::DEPTH_COMPONENT24);
    assert_eq!(TextureFormat::Depth24Plus.gl_format(), gl::DEPTH_COMPONENT);
    assert!(TextureFormat::Depth32Float.is_depth_stencil());
    assert!(!TextureFormat::R8Unorm.is_depth_stencil());
    assert_eq!(TextureFormat::R8Unorm.bytes_per_pixel(), 1);
    assert_eq!(TextureFormat::Rg8Snorm.bytes_per_pixel(), 2);
    assert_eq!(TextureFormat::Rgba8UnormSrgb.bytes_per_pixel(), 4);
}
