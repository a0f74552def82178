//! Cross-compilation of shading-language source to the target language.

use wgpu_webgl::shader::transpile_wgsl_to_glsl_raw;
use wgpu_webgl::shader::undo_y_flip;
use wgpu_webgl::types::ShaderStage;

const TRIANGLE_WGSL: &str = r#"
@vertex
fn vs_main(@builtin(vertex_index) vertex_index: u32) -> @builtin(position) vec4<f32> {
    var positions = array<vec2<f32>, 3>(
        vec2<f32>(0.0, 0.5),
        vec2<f32>(-0.5, -0.5),
        vec2<f32>(0.5, -0.5)
    );
    return vec4<f32>(positions[vertex_index], 0.0, 1.0);
}

@fragment
fn fs_main() -> @location(0) vec4<f32> {
    return vec4<f32>(1.0, 0.5, 0.2, 1.0);
}
"#;

#[test]
fn test_vertex_shader_raw_transpilation() {
    // Raw cross-compiler output (with the coordinate-space adjustment)
    let glsl = transpile_wgsl_to_glsl_raw(TRIANGLE_WGSL, ShaderStage::Vertex, "vs_main")
        .expect("Failed to transpile vertex shader");

    println!("=== Raw Naga Vertex GLSL ===");
    println!("{}", glsl);

    assert!(glsl.contains("gl_Position"));
    assert!(glsl.contains("void main()"));
    // Should have both Y-flip and Z remapping
    assert!(glsl.contains(
        "gl_Position.yz = vec2(-gl_Position.y, gl_Position.z * 2.0 - gl_Position.w);"
    ));
}

#[test]
fn test_vertex_shader_with_y_flip_removed() {
    // After post-processing to remove Y-flip but keep Z remapping
    let glsl = transpile_wgsl_to_glsl_raw(TRIANGLE_WGSL, ShaderStage::Vertex, "vs_main")
        .expect("Failed to transpile vertex shader");
    let processed = undo_y_flip(&glsl);

    println!("=== Processed Vertex GLSL (Y-flip removed) ===");
    println!("{}", processed);

    // Should NOT have Y-flip
    assert!(!processed.contains("-gl_Position.y"));
    // Should still have Z remapping
    assert!(processed.contains("gl_Position.z = gl_Position.z * 2.0 - gl_Position.w;"));
}

#[test]
fn test_fragment_shader_transpilation() {
    let glsl = transpile_wgsl_to_glsl_raw(TRIANGLE_WGSL, ShaderStage::Fragment, "fs_main")
        .expect("Failed to transpile fragment shader");

    println!("=== Generated Fragment GLSL ===");
    println!("{}", glsl);

    assert!(glsl.contains("void main()"));
}

#[test]
fn test_full_transpile_removes_y_flip_for_vertex_stage() {
    let glsl = wgpu_webgl::shader::transpile_wgsl_to_glsl(
        TRIANGLE_WGSL,
        ShaderStage::Vertex,
        "vs_main",
    )
    .expect("Failed to transpile vertex shader");
    assert!(!glsl.contains("-gl_Position.y"));
    assert!(glsl.contains("gl_Position.z = gl_Position.z * 2.0 - gl_Position.w;"));
}

#[test]
fn test_transpile_rejects_invalid_source() {
    let r = transpile_wgsl_to_glsl_raw("not a shader at all", ShaderStage::Vertex, "vs_main");
    assert!(r.is_err());
}

#[test]
fn test_undo_y_flip_replaces_exactly_the_flip_line() {
    let source = "void main() {\n    gl_Position.yz = vec2(-gl_Position.y, gl_Position.z * 2.0 - gl_Position.w);\n}\n";
    let processed = undo_y_flip(source);
    assert_eq!(
        processed,
        "void main() {\n    gl_Position.z = gl_Position.z * 2.0 - gl_Position.w;\n}\n"
    );
}

#[test]
fn test_undo_y_flip_leaves_other_text_alone() {
    let source = "void main() { gl_Position = p; }";
    assert_eq!(undo_y_flip(source), source);
}

#[test]
fn test_undo_y_flip_replaces_every_occurrence() {
    let line = "gl_Position.yz = vec2(-gl_Position.y, gl_Position.z * 2.0 - gl_Position.w);";
    let replaced = "gl_Position.z = gl_Position.z * 2.0 - gl_Position.w;";
    let source = format!("{}\n{}\n", line, line);
    assert_eq!(undo_y_flip(&source), format!("{}\n{}\n", replaced, replaced));
}

#[test]
fn test_transpile_errors_name_the_failed_step() {
    let err = transpile_wgsl_to_glsl_raw("not a shader at all", ShaderStage::Vertex, "vs_main")
        .unwrap_err();
    assert!(err.starts_with("WGSL parse error"), "unexpected message: {}", err);
}

#[test]
fn test_shader_module_creation_fails_on_rejected_source_and_keeps_the_device() {
    let mut dev = wgpu_webgl::device::DeviceState::new(64, 64);
    let before = dev.alloc.next;
    let r = wgpu_webgl::shader::create_shader_module(
        &mut dev,
        "not a shader at all",
        "vs_main",
        "fs_main",
    );
    assert!(r.is_err());
    assert_eq!(dev.alloc.next, before);
}

#[test]
fn test_shader_module_creation_succeeds_on_accepted_source() {
    let mut dev = wgpu_webgl::device::DeviceState::new(64, 64);
    let (module, cmds) = wgpu_webgl::shader::create_shader_module(
        &mut dev,
        TRIANGLE_WGSL,
        "vs_main",
        "fs_main",
    )
    .expect("the cross-compiler accepts the fixture");
    assert!(module.vertex_shader.is_some());
    assert!(module.fragment_shader.is_some());
    assert_eq!(cmds.len(), 6);
}
