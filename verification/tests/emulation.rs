//! The device, the framebuffer cache and the render pass sequencer.

use wgpu_webgl::bind_group::create_bind_group_layout;
use wgpu_webgl::bind_group::create_bind_group_with_buffer;
use wgpu_webgl::bind_group::BindingKind;
use wgpu_webgl::bind_group::LayoutEntry;
use wgpu_webgl::command::GlCmd;
use wgpu_webgl::device::DeviceState;
use wgpu_webgl::error::Error;
use wgpu_webgl::fbo_cache::FboEntry;
use wgpu_webgl::format::TextureFormat;
use wgpu_webgl::gl;
use wgpu_webgl::handle::HandleAllocator;
use wgpu_webgl::handle::TextureHandle;
use wgpu_webgl::pass::begin_render_pass;
use wgpu_webgl::pass::begin_render_pass_with_view;
use wgpu_webgl::pass::create_command_encoder;
use wgpu_webgl::pass::submit;
use wgpu_webgl::pipeline::create_render_pipeline_from_descriptor;
use wgpu_webgl::pipeline::RenderPipelineDescriptor;
use wgpu_webgl::queue::write_buffer;
use wgpu_webgl::queue::write_texture;
use wgpu_webgl::shader::create_shader_module;
use wgpu_webgl::types::LoadOp;
use wgpu_webgl::types::PrimitiveTopology;
use wgpu_webgl::types::TextureDimension;
use wgpu_webgl::format::VertexFormat;
use wgpu_webgl::usage::BUFFER_USAGE_INDEX;
use wgpu_webgl::usage::BUFFER_USAGE_MAP_WRITE;
use wgpu_webgl::usage::BUFFER_USAGE_UNIFORM;
use wgpu_webgl::usage::BUFFER_USAGE_VERTEX;

const TRIANGLE_WGSL: &str = r#"
struct Uniforms {
    tint: vec4<f32>,
}
@group(0) @binding(0) var<uniform> uniforms: Uniforms;

@vertex
fn vs_main(@builtin(vertex_index) vertex_index: u32) -> @builtin(position) vec4<f32> {
    var positions = array<vec2<f32>, 3>(
        vec2<f32>(0.0, 0.5),
        vec2<f32>(-0.5, -0.5),
        vec2<f32>(0.5, -0.5)
    );
    return vec4<f32>(positions[vertex_index], 0.0, 1.0);
}

@fragment
fn fs_main() -> @location(0) vec4<f32> {
    return uniforms.tint;
}
"#;

#[test]
fn buffer_creation_emits_the_allocation_commands() {
    let mut dev = DeviceState::new(320, 200);
    let (buffer, cmds) = dev.create_buffer(1024, BUFFER_USAGE_VERTEX).unwrap();
    assert_eq!(buffer.size(), 1024);
    assert_eq!(
        cmds,
        vec![
            GlCmd::CreateBuffer { buffer: buffer.handle },
            GlCmd::BindBuffer { target: gl::ARRAY_BUFFER, buffer: Some(buffer.handle) },
            GlCmd::BufferDataSize {
                target: gl::ARRAY_BUFFER,
                size: 1024,
                usage_hint: gl::STATIC_DRAW,
            },
            GlCmd::BindBuffer { target: gl::ARRAY_BUFFER, buffer: None },
        ]
    );
}

#[test]
fn buffer_targets_and_hints_follow_the_usage_flags() {
    let mut dev = DeviceState::new(320, 200);
    let (_b, cmds) = dev
        .create_buffer(16, BUFFER_USAGE_INDEX | BUFFER_USAGE_MAP_WRITE)
        .unwrap();
    assert!(matches!(
        cmds[1],
        GlCmd::BindBuffer { target, .. } if target == gl::ELEMENT_ARRAY_BUFFER
    ));
    assert!(matches!(
        cmds[2],
        GlCmd::BufferDataSize { usage_hint, .. } if usage_hint == gl::DYNAMIC_DRAW
    ));
    let (_b, cmds) = dev.create_buffer(16, BUFFER_USAGE_UNIFORM).unwrap();
    assert!(matches!(
        cmds[1],
        GlCmd::BindBuffer { target, .. } if target == gl::UNIFORM_BUFFER
    ));
}

#[test]
fn handle_exhaustion_is_an_error() {
    let mut dev = DeviceState::new(8, 8);
    dev.alloc = HandleAllocator { next: u32::MAX };
    assert_eq!(dev.create_buffer(1, 0).err(), Some(Error::OutOfHandles));
}

#[test]
fn framebuffer_cache_returns_the_same_framebuffer_for_the_same_texture() {
    let mut dev = DeviceState::new(256, 256);
    let tex = TextureHandle(42);
    let (fbo1, cmds1) = dev.get_or_create_framebuffer(tex, 128, 128, 0).unwrap();
    assert!(!cmds1.is_empty());
    // a hit: the identical framebuffer, and nothing allocated
    let (fbo2, cmds2) = dev.get_or_create_framebuffer(tex, 128, 128, 0).unwrap();
    assert_eq!(fbo2, fbo1);
    assert!(cmds2.is_empty());
    // even with different dimensions the cached entry is returned unchecked
    let (fbo3, cmds3) = dev.get_or_create_framebuffer(tex, 999, 999, 0).unwrap();
    assert_eq!(fbo3, fbo1);
    assert!(cmds3.is_empty());
}

#[test]
fn framebuffer_cache_allocates_a_distinct_framebuffer_per_texture() {
    let mut dev = DeviceState::new(256, 256);
    let (fbo1, _) = dev.get_or_create_framebuffer(TextureHandle(1), 64, 64, 0).unwrap();
    let (fbo2, _) = dev.get_or_create_framebuffer(TextureHandle(2), 64, 64, 0).unwrap();
    assert_ne!(fbo1, fbo2);
}

#[test]
fn framebuffer_creation_attaches_color_and_depth() {
    let mut dev = DeviceState::new(256, 256);
    let tex = TextureHandle(5);
    let (fbo, cmds) = dev.get_or_create_framebuffer(tex, 64, 32, 1).unwrap();
    let entry: &FboEntry = &dev.fbo_cache[0];
    assert_eq!(entry.texture, tex);
    assert_eq!(entry.cached.fbo, fbo);
    assert_eq!((entry.cached.width, entry.cached.height), (64, 32));
    assert_eq!(
        cmds,
        vec![
            GlCmd::CreateFramebuffer { framebuffer: fbo },
            GlCmd::BindFramebuffer { target: gl::FRAMEBUFFER, framebuffer: Some(fbo) },
            GlCmd::FramebufferTexture2d {
                target: gl::FRAMEBUFFER,
                attachment: gl::COLOR_ATTACHMENT0,
                tex_target: gl::TEXTURE_2D,
                texture: tex,
                level: 1,
            },
            GlCmd::CreateRenderbuffer { renderbuffer: entry.cached.depth_renderbuffer },
            GlCmd::BindRenderbuffer {
                target: gl::RENDERBUFFER,
                renderbuffer: Some(entry.cached.depth_renderbuffer),
            },
            GlCmd::RenderbufferStorage {
                target: gl::RENDERBUFFER,
                internal_format: gl::DEPTH_COMPONENT24,
                width: 64,
                height: 32,
            },
            GlCmd::FramebufferRenderbuffer {
                target: gl::FRAMEBUFFER,
                attachment: gl::DEPTH_ATTACHMENT,
                rb_target: gl::RENDERBUFFER,
                renderbuffer: entry.cached.depth_renderbuffer,
            },
            GlCmd::BindRenderbuffer { target: gl::RENDERBUFFER, renderbuffer: None },
            GlCmd::CheckFramebufferStatus { target: gl::FRAMEBUFFER },
        ]
    );
}

#[test]
fn rebinding_a_vertex_buffer_rewires_every_attribute_with_the_new_offset() {
    let mut dev = DeviceState::new(640, 480);
    let (module, _c) = create_shader_module(&mut dev, TRIANGLE_WGSL, "vs_main", "fs_main").unwrap();
    let mut descriptor = RenderPipelineDescriptor::new(PrimitiveTopology::TriangleList);
    let slot = descriptor.add_vertex_buffer_layout(16);
    descriptor.add_vertex_attribute(slot, 0, 0, VertexFormat::Float32x2);
    descriptor.add_vertex_attribute(slot, 1, 8, VertexFormat::Float32x2);
    let (pipeline, _c) = create_render_pipeline_from_descriptor(&mut dev, &module, &descriptor)
        .unwrap();

    let (buffer_a, _c) = dev.create_buffer(256, BUFFER_USAGE_VERTEX).unwrap();
    let (buffer_b, _c) = dev.create_buffer(256, BUFFER_USAGE_VERTEX).unwrap();

    let mut pass = begin_render_pass(&dev, 0, 0, 0, 0, LoadOp::Load);
    pass.set_pipeline(&pipeline);
    pass.set_vertex_buffer(0, &buffer_a, 0);
    let before = pass.cmds.len();
    pass.set_vertex_buffer(0, &buffer_b, 16);
    let suffix = &pass.cmds[before..];

    // every attribute of slot 0 is reconfigured against the new buffer and
    // the new offset; nothing of the first binding leaks through
    assert_eq!(
        suffix,
        &[
            GlCmd::BindBuffer { target: gl::ARRAY_BUFFER, buffer: Some(buffer_b.handle) },
            GlCmd::EnableVertexAttribArray { location: 0 },
            GlCmd::VertexAttribPointer {
                location: 0,
                components: 2,
                data_kind: gl::FLOAT,
                normalized: false,
                stride: 16,
                offset: 16,
            },
            GlCmd::EnableVertexAttribArray { location: 1 },
            GlCmd::VertexAttribPointer {
                location: 1,
                components: 2,
                data_kind: gl::FLOAT,
                normalized: false,
                stride: 16,
                offset: 24,
            },
        ]
    );
    for cmd in suffix {
        if let GlCmd::BindBuffer { buffer, .. } = cmd {
            assert_ne!(*buffer, Some(buffer_a.handle));
        }
    }
}

#[test]
fn binding_a_slot_without_a_layout_is_reported() {
    let mut dev = DeviceState::new(64, 64);
    let (buffer, _c) = dev.create_buffer(16, BUFFER_USAGE_VERTEX).unwrap();
    let mut pass = begin_render_pass(&dev, 0, 0, 0, 0, LoadOp::Load);
    let before = pass.cmds.len();
    pass.set_vertex_buffer(5, &buffer, 0);
    assert_eq!(pass.cmds.len(), before + 2);
    assert!(matches!(
        pass.cmds[before + 1],
        GlCmd::Report { note: wgpu_webgl::command::Note::MissingVertexLayout { slot: 5 } }
    ));
}

#[test]
fn drawing_a_triangle_with_a_clear_produces_the_expected_stream() {
    // create a pipeline with one uniform-buffer binding at group zero, clear to
    // opaque black, and draw one triangle; the submitted stream must clear with
    // exactly that color, bind the buffer range to binding point zero, and draw
    // three vertices, in that order
    let mut dev = DeviceState::new(640, 480);
    let (module, module_cmds) =
        create_shader_module(&mut dev, TRIANGLE_WGSL, "vs_main", "fs_main").unwrap();
    assert!(module_cmds.iter().any(|c| matches!(c, GlCmd::CompileShader { .. })));

    let descriptor = RenderPipelineDescriptor::new(PrimitiveTopology::TriangleList);
    let (pipeline, pipeline_cmds) =
        create_render_pipeline_from_descriptor(&mut dev, &module, &descriptor).unwrap();
    assert!(pipeline_cmds.iter().any(|c| matches!(c, GlCmd::LinkProgram { .. })));

    let (uniforms, _c) = dev.create_buffer(16, BUFFER_USAGE_UNIFORM).unwrap();
    let layout = create_bind_group_layout(vec![
        LayoutEntry::new(0, 3, BindingKind::UniformBuffer),
    ])
    .unwrap();
    let group = create_bind_group_with_buffer(&layout, 0, &uniforms, 0, 16);

    let black = 0.0f32.to_bits();
    let opaque = 1.0f32.to_bits();
    let mut pass = begin_render_pass(&dev, black, black, black, opaque, LoadOp::Clear);
    pass.set_pipeline(&pipeline);
    pass.set_bind_group(0, &group);
    pass.draw(3, 1, 0, 0);
    let pass_cmds = pass.end();

    let mut encoder = create_command_encoder();
    encoder.add_pass(pass_cmds);
    let submitted = submit(encoder.finish());

    let clear_color_at = submitted
        .iter()
        .position(|c| {
            matches!(c, GlCmd::ClearColor { red_bits, green_bits, blue_bits, alpha_bits }
                if *red_bits == black && *green_bits == black && *blue_bits == black
                    && *alpha_bits == opaque)
        })
        .expect("the clear color must be recorded");
    let clear_at = submitted
        .iter()
        .position(|c| matches!(c, GlCmd::Clear { mask }
            if *mask == gl::COLOR_BUFFER_BIT | gl::DEPTH_BUFFER_BIT))
        .expect("the clear must be recorded");
    let use_program_at = submitted
        .iter()
        .position(|c| matches!(c, GlCmd::UseProgram { program: Some(p) } if *p == pipeline.program))
        .expect("the program must be used");
    let bind_range_at = submitted
        .iter()
        .position(|c| {
            matches!(c, GlCmd::BindBufferRange { target, binding_point, buffer, offset, size }
                if *target == gl::UNIFORM_BUFFER && *binding_point == 0
                    && *buffer == uniforms.handle && *offset == 0 && *size == 16)
        })
        .expect("the uniform buffer must be bound at binding point zero");
    let draw_at = submitted
        .iter()
        .position(|c| matches!(c, GlCmd::DrawArrays { mode, first, count }
            if *mode == gl::TRIANGLES && *first == 0 && *count == 3))
        .expect("the triangle must be drawn");
    assert!(clear_color_at < clear_at);
    assert!(clear_at < use_program_at);
    assert!(use_program_at < bind_range_at);
    assert!(bind_range_at < draw_at);
    // the pass ends by unbinding, and submission flushes
    assert!(matches!(submitted[submitted.len() - 4], GlCmd::BindVertexArray { vao: None }));
    assert!(matches!(submitted[submitted.len() - 3], GlCmd::UseProgram { program: None }));
    assert!(matches!(
        submitted[submitted.len() - 2],
        GlCmd::Disable { capability } if capability == gl::SCISSOR_TEST
    ));
    assert!(matches!(submitted[submitted.len() - 1], GlCmd::Flush));
    // exactly one draw in the whole stream
    assert_eq!(
        submitted
            .iter()
            .filter(|c| matches!(c, GlCmd::DrawArrays { .. } | GlCmd::DrawArraysInstanced { .. }))
            .count(),
        1
    );
}

#[test]
fn a_pass_on_a_texture_view_goes_through_the_framebuffer_cache() {
    let mut dev = DeviceState::new(640, 480);
    let (texture, _c) = dev
        .create_texture(128, 64, 1, TextureFormat::Rgba8Unorm, TextureDimension::D2, 1, 1, 0)
        .unwrap();
    let view = texture.create_view();
    let pass = begin_render_pass_with_view(&mut dev, &view, 0, 0, 0, 0, LoadOp::Load).unwrap();
    // the texture's framebuffer is created, bound, and the viewport sized to it
    assert_eq!(dev.fbo_cache.len(), 1);
    let fbo = dev.fbo_cache[0].cached.fbo;
    assert!(pass.cmds.iter().any(|c| matches!(c,
        GlCmd::BindFramebuffer { target, framebuffer: Some(f) }
            if *target == gl::FRAMEBUFFER && *f == fbo)));
    assert!(pass.cmds.iter().any(|c| matches!(c,
        GlCmd::Viewport { x: 0, y: 0, width: 128, height: 64 })));
    // a second pass on the same view reuses the cached framebuffer
    let pass2 = begin_render_pass_with_view(&mut dev, &view, 0, 0, 0, 0, LoadOp::Load).unwrap();
    assert_eq!(dev.fbo_cache.len(), 1);
    assert!(!pass2.cmds.iter().any(|c| matches!(c, GlCmd::CreateFramebuffer { .. })));
}

#[test]
fn a_surface_pass_targets_the_default_framebuffer() {
    let mut dev = DeviceState::new(640, 480);
    let surface = dev.get_surface_texture(800, 600);
    assert!(surface.is_surface_texture);
    assert_eq!((dev.width, dev.height), (800, 600));
    let view = surface.create_view();
    let pass = begin_render_pass_with_view(&mut dev, &view, 0, 0, 0, 0, LoadOp::Load).unwrap();
    assert_eq!(
        pass.cmds,
        vec![
            GlCmd::BindFramebuffer { target: gl::FRAMEBUFFER, framebuffer: None },
            GlCmd::Viewport { x: 0, y: 0, width: 800, height: 600 },
        ]
    );
}

#[test]
fn writing_a_buffer_uploads_the_bytes_unchanged() {
    let mut dev = DeviceState::new(64, 64);
    let (buffer, _c) = dev.create_buffer(64, BUFFER_USAGE_UNIFORM).unwrap();
    let data = vec![1u8, 2, 3, 4];
    let cmds = write_buffer(&buffer, 8, data.clone());
    assert_eq!(
        cmds,
        vec![
            GlCmd::BindBuffer { target: gl::UNIFORM_BUFFER, buffer: Some(buffer.handle) },
            GlCmd::BufferSubData { target: gl::UNIFORM_BUFFER, offset: 8, data },
            GlCmd::BindBuffer { target: gl::UNIFORM_BUFFER, buffer: None },
        ]
    );
}

#[test]
fn writing_a_padded_texture_row_sets_the_unpack_row_length() {
    let mut dev = DeviceState::new(64, 64);
    let (texture, _c) = dev
        .create_texture(4, 4, 1, TextureFormat::Rgba8Unorm, TextureDimension::D2, 1, 1, 0)
        .unwrap();
    let data = vec![0u8; 256];
    // 4 pixels of 4 bytes are 16 packed bytes per row; 64 means padding
    let cmds = write_texture(&texture, 0, 0, 0, 0, data, 64, 4, 4, 4, 1);
    assert!(matches!(
        cmds[0],
        GlCmd::PixelStoreI32 { parameter, value }
            if parameter == gl::UNPACK_ROW_LENGTH && value == 16
    ));
    assert!(matches!(cmds[2], GlCmd::TexSubImage2d { width: 4, height: 4, .. }));
    assert!(matches!(
        cmds[cmds.len() - 1],
        GlCmd::PixelStoreI32 { parameter, value }
            if parameter == gl::UNPACK_ROW_LENGTH && value == 0
    ));
}

#[test]
fn writing_a_layered_texture_uses_the_array_target() {
    let mut dev = DeviceState::new(64, 64);
    let (texture, _c) = dev
        .create_texture(4, 4, 3, TextureFormat::Rgba8Unorm, TextureDimension::D2, 1, 1, 0)
        .unwrap();
    let cmds = write_texture(&texture, 0, 0, 0, 2, vec![0u8; 64], 16, 4, 4, 4, 1);
    assert!(matches!(
        cmds[0],
        GlCmd::BindTexture { target, .. } if target == gl::TEXTURE_2D_ARRAY
    ));
    assert!(matches!(cmds[1], GlCmd::TexSubImage3d { z: 2, .. }));
}

#[test]
fn writing_the_surface_texture_is_reported() {
    let mut dev = DeviceState::new(64, 64);
    let surface = dev.get_surface_texture(64, 64);
    let cmds = write_texture(&surface, 0, 0, 0, 0, vec![0u8; 4], 4, 1, 1, 1, 1);
    assert_eq!(cmds.len(), 1);
    assert!(matches!(
        cmds[0],
        GlCmd::Report { note: wgpu_webgl::command::Note::SurfaceTextureNotWritable }
    ));
}

#[test]
fn object_stats_count_creations_and_reset() {
    let mut dev = DeviceState::new(64, 64);
    let _ = dev.create_buffer(16, 0).unwrap();
    let _ = dev.create_buffer(16, 0).unwrap();
    let _ = dev
        .create_texture(4, 4, 1, TextureFormat::Rgba8Unorm, TextureDimension::D2, 1, 1, 0)
        .unwrap();
    let stats = dev.get_object_stats();
    assert_eq!(stats.buffers, 2);
    assert_eq!(stats.textures, 1);
    dev.reset_object_stats();
    assert_eq!(dev.get_object_stats().buffers, 0);
}

#[test]
fn creating_a_buffer_with_data_uploads_the_bytes() {
    let mut dev = DeviceState::new(64, 64);
    let data = vec![9u8, 8, 7];
    let (buffer, cmds) = dev.create_buffer_with_data(data.clone(), BUFFER_USAGE_VERTEX).unwrap();
    assert_eq!(buffer.size(), 3);
    assert!(matches!(&cmds[2], GlCmd::BufferData { data: d, .. } if *d == data));
}

#[test]
fn creating_a_layered_texture_allocates_array_storage() {
    let mut dev = DeviceState::new(64, 64);
    let (texture, cmds) = dev
        .create_texture(16, 16, 6, TextureFormat::Rgba8Unorm, TextureDimension::D2, 1, 1, 0)
        .unwrap();
    assert_eq!(texture.depth_or_array_layers(), 6);
    assert!(matches!(
        cmds[2],
        GlCmd::TexStorage3d { target, depth: 6, .. } if target == gl::TEXTURE_2D_ARRAY
    ));
    // a view of a layered texture is an array view
    assert_eq!(
        texture.create_view().dimension,
        wgpu_webgl::types::TextureViewDimension::D2Array
    );
}

#[test]
fn creating_a_comparison_sampler_sets_the_compare_mode() {
    let mut dev = DeviceState::new(64, 64);
    let (sampler, cmds) = dev
        .create_sampler(
            wgpu_webgl::types::AddressMode::ClampToEdge,
            wgpu_webgl::types::AddressMode::ClampToEdge,
            wgpu_webgl::types::AddressMode::ClampToEdge,
            wgpu_webgl::types::FilterMode::Linear,
            wgpu_webgl::types::FilterMode::Linear,
            wgpu_webgl::types::MipmapFilterMode::Nearest,
            0.0f32.to_bits(),
            32.0f32.to_bits(),
            wgpu_webgl::types::SamplerCompareFunction::LessEqual,
            4,
        )
        .unwrap();
    assert!(cmds.contains(&GlCmd::SamplerParameterI32 {
        sampler: sampler.handle,
        parameter: gl::TEXTURE_COMPARE_MODE,
        value: gl::COMPARE_REF_TO_TEXTURE,
    }));
    assert!(cmds.contains(&GlCmd::SamplerParameterI32 {
        sampler: sampler.handle,
        parameter: gl::TEXTURE_COMPARE_FUNC,
        value: gl::LEQUAL,
    }));
    assert!(cmds.contains(&GlCmd::SamplerParameterF32Bits {
        sampler: sampler.handle,
        parameter: gl::TEXTURE_MAX_LOD,
        value_bits: 32.0f32.to_bits(),
    }));
    assert!(cmds.contains(&GlCmd::SamplerParameterAnisotropy {
        sampler: sampler.handle,
        max_anisotropy: 4,
    }));
}

#[test]
fn indexed_draws_scale_the_first_index_by_the_index_size() {
    let mut dev = DeviceState::new(64, 64);
    let (index_buffer, _c) = dev.create_buffer(64, BUFFER_USAGE_INDEX).unwrap();
    let mut pass = begin_render_pass(&dev, 0, 0, 0, 0, LoadOp::Load);
    // a format code of one selects wide indices
    pass.set_index_buffer(&index_buffer, 1, 0);
    pass.draw_indexed(6, 1, 3, 0, 0);
    assert!(matches!(
        pass.cmds[pass.cmds.len() - 1],
        GlCmd::DrawElements { mode, count: 6, element_kind, offset }
            if mode == gl::TRIANGLES && element_kind == gl::UNSIGNED_INT && offset == 12
    ));
    // any other code selects narrow indices
    pass.set_index_buffer(&index_buffer, 0, 0);
    pass.draw_indexed(6, 2, 3, 0, 0);
    assert!(matches!(
        pass.cmds[pass.cmds.len() - 1],
        GlCmd::DrawElementsInstanced { count: 6, element_kind, offset, instance_count: 2, .. }
            if element_kind == gl::UNSIGNED_SHORT && offset == 6
    ));
}

#[test]
fn passes_execute_in_the_order_they_were_added() {
    let dev = DeviceState::new(64, 64);
    let pass1 = begin_render_pass(&dev, 0, 0, 0, 0, LoadOp::Load);
    let mut pass2 = begin_render_pass(&dev, 0, 0, 0, 0, LoadOp::Load);
    pass2.draw(3, 1, 0, 0);
    let cmds1 = pass1.end();
    let cmds2 = pass2.end();
    let n1 = cmds1.len();
    let mut encoder = create_command_encoder();
    encoder.add_pass(cmds1.clone());
    encoder.add_pass(cmds2.clone());
    let submitted = submit(encoder.finish());
    assert_eq!(&submitted[..n1], &cmds1[..]);
    assert_eq!(&submitted[n1..n1 + cmds2.len()], &cmds2[..]);
    assert!(matches!(submitted[submitted.len() - 1], GlCmd::Flush));
}

#[test]
fn a_pass_ends_by_unbinding_pipeline_state() {
    let dev = DeviceState::new(64, 64);
    let mut pass = begin_render_pass(&dev, 0, 0, 0, 0, LoadOp::Load);
    pass.set_scissor_rect(0, 0, 32, 32);
    pass.set_viewport(0, 0, 32, 32, 0.0f32.to_bits(), 1.0f32.to_bits());
    let cmds = pass.end();
    let n = cmds.len();
    assert!(matches!(cmds[n - 3], GlCmd::BindVertexArray { vao: None }));
    assert!(matches!(cmds[n - 2], GlCmd::UseProgram { program: None }));
    assert!(matches!(cmds[n - 1], GlCmd::Disable { capability } if capability == gl::SCISSOR_TEST));
}

#[test]
fn destroy_commands_release_what_was_created() {
    let mut dev = DeviceState::new(64, 64);
    let (buffer, _c) = dev.create_buffer(16, 0).unwrap();
    assert_eq!(
        buffer.destroy_commands(),
        vec![GlCmd::DeleteBuffer { buffer: buffer.handle }]
    );
    let (texture, _c) = dev
        .create_texture(4, 4, 1, TextureFormat::Rgba8Unorm, TextureDimension::D2, 1, 1, 0)
        .unwrap();
    assert_eq!(texture.destroy_commands().len(), 1);
    let surface = dev.get_surface_texture(64, 64);
    assert!(surface.destroy_commands().is_empty());
    let (module, _c) = create_shader_module(&mut dev, TRIANGLE_WGSL, "vs_main", "fs_main").unwrap();
    let destroy = wgpu_webgl::shader::destroy_shader_module_commands(&module);
    assert_eq!(destroy.len(), 2);
    let descriptor = RenderPipelineDescriptor::new(PrimitiveTopology::TriangleList);
    let (pipeline, _c) =
        create_render_pipeline_from_descriptor(&mut dev, &module, &descriptor).unwrap();
    assert_eq!(
        pipeline.destroy_commands(),
        vec![
            GlCmd::DeleteProgram { program: pipeline.program },
            GlCmd::DeleteVertexArray { vao: pipeline.vao },
        ]
    );
}

#[test]
fn a_pipeline_carries_its_descriptor_state() {
    let mut dev = DeviceState::new(64, 64);
    let (module, _c) = create_shader_module(&mut dev, TRIANGLE_WGSL, "vs_main", "fs_main").unwrap();
    let mut descriptor = RenderPipelineDescriptor::new(PrimitiveTopology::LineStrip);
    descriptor.set_cull_mode(wgpu_webgl::types::CullMode::Back);
    descriptor.set_front_face(wgpu_webgl::types::FrontFace::Cw);
    descriptor.set_depth_test(true, true, wgpu_webgl::types::CompareFunction::LessEqual);
    let (pipeline, cmds) =
        create_render_pipeline_from_descriptor(&mut dev, &module, &descriptor).unwrap();
    assert_eq!(pipeline.topology, PrimitiveTopology::LineStrip);
    assert_eq!(pipeline.cull_mode, wgpu_webgl::types::CullMode::Back);
    assert_eq!(pipeline.front_face, wgpu_webgl::types::FrontFace::Cw);
    assert!(pipeline.depth_test_enabled);
    // the pipeline's program is linked from both shaders
    assert_eq!(
        cmds.iter()
            .filter(|c| matches!(c, GlCmd::AttachShader { .. }))
            .count(),
        2
    );
    // an auto-derived bind group layout is empty: binding points come from
    // reflection, not from the pipeline
    assert_eq!(pipeline.get_bind_group_layout(0).entry_count(), 0);
    // setting the pipeline applies its depth state
    let mut pass = begin_render_pass(&dev, 0, 0, 0, 0, LoadOp::Load);
    pass.set_pipeline(&pipeline);
    assert!(pass.cmds.contains(&GlCmd::Enable { capability: gl::DEPTH_TEST }));
    assert!(pass.cmds.contains(&GlCmd::DepthFunc { func: gl::LEQUAL }));
    assert!(pass.cmds.contains(&GlCmd::DepthMask { flag: true }));
}

#[test]
fn framebuffer_creation_fails_when_the_handle_space_is_exhausted() {
    let mut dev = DeviceState::new(8, 8);
    dev.alloc = HandleAllocator { next: u32::MAX - 1 };
    assert_eq!(
        dev.get_or_create_framebuffer(TextureHandle(1), 4, 4, 0).err(),
        Some(Error::OutOfHandles)
    );
}
