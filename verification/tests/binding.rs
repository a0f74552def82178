//! The shader reflection binder and the bind group emulator.

use wgpu_webgl::bind_group::buffer_binding_kind_of_buffer_type;
use wgpu_webgl::bind_group::create_bind_group_layout;
use wgpu_webgl::bind_group::create_bind_group_with_buffer;
use wgpu_webgl::bind_group::create_bind_group_with_buffer_texture_view_sampler;
use wgpu_webgl::bind_group::BindGroupLayout;
use wgpu_webgl::bind_group::BindingKind;
use wgpu_webgl::bind_group::BoundResource;
use wgpu_webgl::bind_group::LayoutEntry;
use wgpu_webgl::command::GlCmd;
use wgpu_webgl::command::Note;
use wgpu_webgl::device::DeviceState;
use wgpu_webgl::error::Error;
use wgpu_webgl::gl;
use wgpu_webgl::handle::ProgramHandle;
use wgpu_webgl::reflection::parse_binding_from_block_name;
use wgpu_webgl::reflection::parse_group_binding_from_name;
use wgpu_webgl::reflection::resolve_block_binding;
use wgpu_webgl::reflection::resolve_uniform_block_bindings;
use wgpu_webgl::reflection::sampler_uniform_name;
use wgpu_webgl::reflection::BindingPointSource;
use wgpu_webgl::reflection::UniformBlockInfo;
use wgpu_webgl::usage::BUFFER_USAGE_UNIFORM;

fn empty_layout() -> BindGroupLayout {
    create_bind_group_layout(Vec::new()).unwrap()
}

#[test]
fn parse_recovers_group_and_binding_from_uniform_name() {
    assert_eq!(
        parse_group_binding_from_name("_group_1_binding_0_vs.worldPos"),
        Some((1, 0))
    );
    assert_eq!(parse_group_binding_from_name("_group_3_binding_2_fs"), Some((3, 2)));
    assert_eq!(parse_group_binding_from_name("_group_12_binding_34_vs"), Some((12, 34)));
    assert_eq!(parse_group_binding_from_name("member"), None);
    assert_eq!(parse_group_binding_from_name("_group_x_binding_0_vs"), None);
}

#[test]
fn parse_rejects_numbers_that_do_not_fit() {
    assert_eq!(
        parse_group_binding_from_name("_group_4294967296_binding_0_vs"),
        None
    );
    assert_eq!(
        parse_group_binding_from_name("_group_4294967295_binding_0_vs"),
        Some((4294967295, 0))
    );
}

#[test]
fn block_name_parsing_tries_the_three_conventions_in_turn() {
    // a full pair in the block name yields the group index
    assert_eq!(parse_binding_from_block_name("_group_2_binding_5_fs"), Some(2));
    // an incomplete pair falls through to the bare `_binding` number
    assert_eq!(parse_binding_from_block_name("_group_x_binding5"), Some(5));
    // a bare `_binding` number
    assert_eq!(parse_binding_from_block_name("Lights_binding7"), Some(7));
    // the sequential block number
    assert_eq!(parse_binding_from_block_name("CameraUniforms_block_0Vertex"), Some(0));
    assert_eq!(parse_binding_from_block_name("ObjectUniforms_block_1Vertex"), Some(1));
    // nothing recognizable
    assert_eq!(parse_binding_from_block_name("Lights"), None);
}

#[test]
fn binder_resolves_convention_names_to_the_group_index() {
    // the binding point is the group index, not the binding index
    assert_eq!(
        resolve_block_binding(9, "SomeBlock_block_0Vertex", Some("_group_2_binding_1_vs")),
        (2, BindingPointSource::UniformName)
    );
    assert_eq!(
        resolve_block_binding(9, "ignored", Some("_group_0_binding_3_fs.color")),
        (0, BindingPointSource::UniformName)
    );
}

#[test]
fn binder_resolves_a_block_name_pair_to_the_group_index() {
    // with no usable uniform name, a full pair in the block's own name
    // resolves to the group index as well
    assert_eq!(
        resolve_block_binding(9, "Camera_group_2_binding_5_fs", Some("cameraMatrix")),
        (2, BindingPointSource::BlockName)
    );
    assert_eq!(
        resolve_block_binding(9, "Camera_group_2_binding_5_fs", None),
        (2, BindingPointSource::BlockName)
    );
}

#[test]
fn binder_falls_back_to_the_sequential_index() {
    assert_eq!(
        resolve_block_binding(4, "Lights", Some("lightColor")),
        (4, BindingPointSource::BlockIndex)
    );
    assert_eq!(
        resolve_block_binding(4, "Lights", None),
        (4, BindingPointSource::BlockIndex)
    );
}

#[test]
fn binder_uses_distinct_indices_for_two_unrecognized_blocks() {
    let program = ProgramHandle(7);
    let blocks = vec![
        UniformBlockInfo {
            block_index: 0,
            block_name: String::from("Alpha"),
            first_uniform_name: Some(String::from("alphaMember")),
        },
        UniformBlockInfo {
            block_index: 1,
            block_name: String::from("Beta"),
            first_uniform_name: Some(String::from("betaMember")),
        },
    ];
    let cmds = resolve_uniform_block_bindings(program, &blocks);
    let mut points = Vec::new();
    for cmd in &cmds {
        if let GlCmd::UniformBlockBinding { program: p, block_index, binding_point } = cmd {
            assert_eq!(*p, program);
            points.push((*block_index, *binding_point));
        }
    }
    // both blocks bound, to 0 and 1, not both to the same slot
    assert_eq!(points, vec![(0, 0), (1, 1)]);
    // and both misses reported
    let reports = cmds
        .iter()
        .filter(|c| matches!(c, GlCmd::Report { note: Note::UnrecognizedBlockName { .. } }))
        .count();
    assert_eq!(reports, 2);
}

#[test]
fn sampler_uniform_names_follow_the_convention() {
    assert_eq!(sampler_uniform_name(0, 1, true), "_group_0_binding_1_fs");
    assert_eq!(sampler_uniform_name(12, 7, false), "_group_12_binding_7_vs");
}

#[test]
fn apply_single_buffer_binds_one_range_at_the_group_index() {
    let mut dev = DeviceState::new(64, 64);
    let (buffer, _cmds) = dev.create_buffer(256, BUFFER_USAGE_UNIFORM).unwrap();
    let layout = create_bind_group_layout(vec![
        LayoutEntry::new(0, 1, BindingKind::UniformBuffer),
    ])
    .unwrap();
    let group = create_bind_group_with_buffer(&layout, 0, &buffer, 16, 64);
    let applied = group.apply(3, None);
    assert_eq!(applied.len(), 1);
    match &applied[0] {
        GlCmd::BindBufferRange { target, binding_point, buffer: b, offset, size } => {
            assert_eq!(*target, gl::UNIFORM_BUFFER);
            // the native binding point is the group index
            assert_eq!(*binding_point, 3);
            assert_eq!(*b, buffer.handle);
            // byte offset and size pass through unchanged
            assert_eq!(*offset, 16);
            assert_eq!(*size, 64);
        },
        other => panic!("expected a buffer-range binding, got {:?}", other),
    }
}

#[test]
fn apply_skips_storage_buffers_with_a_report() {
    let mut dev = DeviceState::new(64, 64);
    let (buffer, _cmds) = dev.create_buffer(256, BUFFER_USAGE_UNIFORM).unwrap();
    let layout = create_bind_group_layout(vec![
        LayoutEntry::new(0, 1, BindingKind::StorageBuffer),
    ])
    .unwrap();
    let group = create_bind_group_with_buffer(&layout, 0, &buffer, 0, 256);
    let applied = group.apply(0, None);
    assert_eq!(applied.len(), 1);
    assert!(matches!(
        applied[0],
        GlCmd::Report { note: Note::StorageBufferUnsupported { binding: 0 } }
    ));
}

#[test]
fn apply_texture_probes_both_stage_names_when_a_program_is_active() {
    let mut dev = DeviceState::new(64, 64);
    let (texture, _c1) = dev
        .create_texture(
            16,
            16,
            1,
            wgpu_webgl::format::TextureFormat::Rgba8Unorm,
            wgpu_webgl::types::TextureDimension::D2,
            1,
            1,
            0,
        )
        .unwrap();
    let (sampler, _c2) = dev
        .create_sampler(
            wgpu_webgl::types::AddressMode::ClampToEdge,
            wgpu_webgl::types::AddressMode::ClampToEdge,
            wgpu_webgl::types::AddressMode::ClampToEdge,
            wgpu_webgl::types::FilterMode::Nearest,
            wgpu_webgl::types::FilterMode::Nearest,
            wgpu_webgl::types::MipmapFilterMode::Nearest,
            0,
            0,
            wgpu_webgl::types::SamplerCompareFunction::NoCompare,
            1,
        )
        .unwrap();
    let view = texture.create_view();
    let layout = empty_layout();
    let group = wgpu_webgl::bind_group::create_bind_group_with_texture_view_sampler(
        &layout, 2, &view, 3, &sampler,
    );
    let program = ProgramHandle(99);
    let applied = group.apply(1, Some(program));
    // texture entry: activate unit 2, bind, probe sampler uniform; then the sampler entry
    assert_eq!(applied.len(), 4);
    assert!(matches!(applied[0], GlCmd::ActiveTexture { unit } if unit == gl::TEXTURE0 + 2));
    assert!(
        matches!(applied[1], GlCmd::BindTexture { target, texture: Some(t) }
            if target == gl::TEXTURE_2D && Some(t) == texture.handle)
    );
    match &applied[2] {
        GlCmd::TrySetSamplerUniform { program: p, name_fs, name_vs, unit } => {
            assert_eq!(*p, program);
            assert_eq!(name_fs, "_group_1_binding_2_fs");
            assert_eq!(name_vs, "_group_1_binding_2_vs");
            assert_eq!(*unit, 2);
        },
        other => panic!("expected a sampler-uniform probe, got {:?}", other),
    }
    assert!(
        matches!(applied[3], GlCmd::BindSampler { unit: 3, sampler: Some(s) } if s == sampler.handle)
    );
}

#[test]
fn layout_and_bind_group_round_trip_preserves_count_and_kinds() {
    let mut dev = DeviceState::new(64, 64);
    let layout = create_bind_group_layout(vec![
        LayoutEntry::new(0, 1, BindingKind::UniformBuffer),
        LayoutEntry::new(1, 2, BindingKind::Sampler),
        LayoutEntry::new(2, 2, BindingKind::SampledTexture),
    ])
    .unwrap();
    assert_eq!(layout.entry_count(), 3);

    let (buffer, _c) = dev.create_buffer(64, BUFFER_USAGE_UNIFORM).unwrap();
    let (texture, _c) = dev
        .create_texture(
            8,
            8,
            1,
            wgpu_webgl::format::TextureFormat::Rgba8Unorm,
            wgpu_webgl::types::TextureDimension::D2,
            1,
            1,
            0,
        )
        .unwrap();
    let (sampler, _c) = dev
        .create_sampler(
            wgpu_webgl::types::AddressMode::Repeat,
            wgpu_webgl::types::AddressMode::Repeat,
            wgpu_webgl::types::AddressMode::Repeat,
            wgpu_webgl::types::FilterMode::Linear,
            wgpu_webgl::types::FilterMode::Linear,
            wgpu_webgl::types::MipmapFilterMode::Linear,
            0,
            0,
            wgpu_webgl::types::SamplerCompareFunction::NoCompare,
            1,
        )
        .unwrap();
    let view = texture.create_view();

    let group = create_bind_group_with_buffer_texture_view_sampler(
        &layout, 0, &buffer, 0, 64, 2, &view, 1, &sampler,
    );

    // the count and the carried layout survive the round trip
    assert_eq!(group.entry_count(), 3);
    assert_eq!(group.layout.len(), 3);
    for (i, kind) in [
        BindingKind::UniformBuffer,
        BindingKind::Sampler,
        BindingKind::SampledTexture,
    ]
    .iter()
    .enumerate()
    {
        assert_eq!(group.layout[i].binding, i as u32);
        assert_eq!(group.layout[i].kind, *kind);
    }
    // each entry holds the declared resource kind at its binding
    assert_eq!(group.entries[0].binding, 0);
    assert!(matches!(group.entries[0].resource, BoundResource::Buffer { .. }));
    assert_eq!(group.entries[1].binding, 2);
    assert!(matches!(group.entries[1].resource, BoundResource::Texture { .. }));
    assert_eq!(group.entries[2].binding, 1);
    assert!(matches!(group.entries[2].resource, BoundResource::Sampler { .. }));
}

#[test]
fn duplicate_bindings_are_rejected() {
    let r = create_bind_group_layout(vec![
        LayoutEntry::new(0, 1, BindingKind::UniformBuffer),
        LayoutEntry::new(0, 1, BindingKind::Sampler),
    ]);
    assert_eq!(r.err(), Some(Error::DuplicateBinding));
}

#[test]
fn buffer_type_names_map_to_binding_kinds() {
    assert_eq!(buffer_binding_kind_of_buffer_type("storage"), BindingKind::StorageBuffer);
    assert_eq!(
        buffer_binding_kind_of_buffer_type("read-only-storage"),
        BindingKind::StorageBuffer
    );
    assert_eq!(buffer_binding_kind_of_buffer_type("uniform"), BindingKind::UniformBuffer);
    assert_eq!(buffer_binding_kind_of_buffer_type(""), BindingKind::UniformBuffer);
}

#[test]
fn the_builder_accumulates_entries_in_order() {
    let mut dev = DeviceState::new(64, 64);
    let (buffer, _c) = dev.create_buffer(32, BUFFER_USAGE_UNIFORM).unwrap();
    let (texture, _c) = dev
        .create_texture(
            8,
            8,
            1,
            wgpu_webgl::format::TextureFormat::Rgba8Unorm,
            wgpu_webgl::types::TextureDimension::D2,
            1,
            1,
            0,
        )
        .unwrap();
    let (sampler, _c) = dev
        .create_sampler(
            wgpu_webgl::types::AddressMode::Repeat,
            wgpu_webgl::types::AddressMode::Repeat,
            wgpu_webgl::types::AddressMode::Repeat,
            wgpu_webgl::types::FilterMode::Linear,
            wgpu_webgl::types::FilterMode::Linear,
            wgpu_webgl::types::MipmapFilterMode::Linear,
            0,
            0,
            wgpu_webgl::types::SamplerCompareFunction::NoCompare,
            1,
        )
        .unwrap();
    let mut builder = wgpu_webgl::bind_group::BindGroupBuilder::new();
    builder.add_buffer(0, &buffer, 0, 32);
    builder.add_sampler(1, &sampler);
    builder.add_texture_view(2, &texture.create_view()).unwrap();
    let group = builder.build(&empty_layout());
    assert_eq!(group.entry_count(), 3);
    assert!(matches!(group.entries[0].resource, BoundResource::Buffer { .. }));
    assert!(matches!(group.entries[1].resource, BoundResource::Sampler { .. }));
    assert!(matches!(group.entries[2].resource, BoundResource::Texture { .. }));
}

#[test]
fn the_builder_rejects_a_surface_view() {
    let mut dev = DeviceState::new(64, 64);
    let surface = dev.get_surface_texture(64, 64);
    let mut builder = wgpu_webgl::bind_group::BindGroupBuilder::new();
    assert_eq!(
        builder.add_texture_view(0, &surface.create_view()).err(),
        Some(Error::SurfaceTextureNotBindable)
    );
    assert_eq!(builder.build(&empty_layout()).entry_count(), 0);
}

#[test]
fn a_bind_group_from_a_surface_texture_stays_empty() {
    let mut dev = DeviceState::new(64, 64);
    let surface = dev.get_surface_texture(64, 64);
    let layout = empty_layout();
    let group = wgpu_webgl::bind_group::create_bind_group_with_texture(&layout, 0, &surface);
    assert_eq!(group.entry_count(), 0);
    let empty = wgpu_webgl::bind_group::create_empty_bind_group(&layout);
    assert_eq!(empty.entry_count(), 0);
    assert!(empty.apply(0, None).is_empty());
}

#[test]
fn a_pipeline_layout_counts_its_bind_group_layouts() {
    let layout = wgpu_webgl::bind_group::create_pipeline_layout(3);
    assert_eq!(layout.bind_group_layout_count(), 3);
}

#[test]
fn the_pipeline_layout_builder_counts_layouts() {
    let mut builder = wgpu_webgl::bind_group::PipelineLayoutBuilder::new();
    builder.add_bind_group_layout(&empty_layout());
    builder.add_bind_group_layout(&empty_layout());
    assert_eq!(builder.build().bind_group_layout_count(), 2);
}

#[test]
fn parse_accepts_leading_zeros() {
    assert_eq!(
        parse_group_binding_from_name("_group_007_binding_00_vs"),
        Some((7, 0))
    );
}
