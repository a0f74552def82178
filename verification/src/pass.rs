//! The render pass sequencer.
//!
//! A pass records the per-draw state transitions — pipeline, vertex and index
//! buffers, bind groups, viewport, scissor — and the draws themselves, in
//! submission order. Setting a vertex buffer re-runs the attribute
//! configuration of that slot's whole layout at call time, because the
//! immediate-mode attribute call captures the currently bound buffer rather
//! than taking it as a parameter. Ending a pass unbinds the pipeline-scoped
//! state so nothing leaks into the next pass; a finished command buffer holds
//! the passes in the order they were recorded.

use vstd::prelude::*;

use crate::bind_group::BindGroup;
use crate::bind_group::spec_apply;
use crate::bind_group::spec_entry_unit_ok;
use crate::command::CmdModel;
use crate::command::GlCmd;
use crate::command::models;
use crate::command::Note;
use crate::device::DeviceState;
use crate::error::Error;
use crate::fbo_cache::lemma_cache_lookup_hit;
use crate::fbo_cache::lemma_cache_lookup_none;
use crate::fbo_cache::spec_cache_lookup;
use crate::gl;
use crate::handle::BufferHandle;
use crate::handle::FramebufferHandle;
use crate::handle::ProgramHandle;
use crate::handle::RenderbufferHandle;
use crate::device::spec_fbo_create_cmds;
use crate::pipeline::duplicate_layouts;
use crate::pipeline::RenderPipeline;
use crate::pipeline::spec_layouts;
use crate::pipeline::VertexAttribute;
use crate::pipeline::VertexBufferLayout;
use crate::pipeline::VertexBufferLayoutModel;
use crate::resources::Buffer;
use crate::resources::TextureView;
use crate::types::BlendState;
use crate::types::CompareFunction;
use crate::types::IndexFormat;
use crate::types::LoadOp;
use crate::types::spec_blend_enabled;
use crate::types::spec_blend_factor_gl;
use crate::types::spec_blend_operation_gl;
use crate::types::spec_compare_function_gl;
use crate::types::spec_index_format_byte_size;
use crate::types::spec_index_format_gl;
use crate::types::spec_topology_gl;

verus! {

/// A render pass being recorded: the commands so far and the pipeline-scoped
/// state that later calls depend on.
pub struct RenderPassEncoder {
    /// The commands recorded so far, in submission order.
    pub cmds: Vec<GlCmd>,
    /// The program of the pipeline currently set, for sampler-uniform
    /// resolution.
    pub current_pipeline: Option<ProgramHandle>,
    /// The draw mode of the pipeline currently set.
    pub current_topology: u32,
    /// The vertex layouts of the pipeline currently set, by slot.
    pub current_vertex_layouts: Vec<VertexBufferLayout>,
    /// The format of the index buffer currently set.
    pub current_index_format: IndexFormat,
}

/// The commands that target the surface: bind the default framebuffer and size
/// the viewport to it.
pub open spec fn spec_surface_target_cmds(width: u32, height: u32) -> Seq<CmdModel> {
    seq![
        CmdModel::BindFramebuffer { target: gl::FRAMEBUFFER, framebuffer: None },
        CmdModel::Viewport { x: 0, y: 0, width: width as i32, height: height as i32 },
    ]
}

/// The commands that target an off-screen framebuffer and size the viewport to
/// the texture.
pub open spec fn spec_fbo_target_cmds(fbo: FramebufferHandle, width: u32, height: u32) -> Seq<
    CmdModel,
> {
    seq![
        CmdModel::BindFramebuffer { target: gl::FRAMEBUFFER, framebuffer: Some(fbo) },
        CmdModel::Viewport { x: 0, y: 0, width: width as i32, height: height as i32 },
    ]
}

/// The clear commands of a pass: the clear color and a combined color-depth
/// clear when loading clears, nothing when loading keeps the contents.
pub open spec fn spec_clear_cmds(
    clear_r_bits: u32,
    clear_g_bits: u32,
    clear_b_bits: u32,
    clear_a_bits: u32,
    load_op: LoadOp,
) -> Seq<CmdModel> {
    if load_op == LoadOp::Clear {
        seq![
            CmdModel::ClearColor {
                red_bits: clear_r_bits,
                green_bits: clear_g_bits,
                blue_bits: clear_b_bits,
                alpha_bits: clear_a_bits,
            },
            CmdModel::Clear { mask: gl::COLOR_BUFFER_BIT | gl::DEPTH_BUFFER_BIT },
        ]
    } else {
        Seq::<CmdModel>::empty()
    }
}

/// Push the clear commands for a pass beginning.
fn push_clear_cmds(
    cmds: &mut Vec<GlCmd>,
    clear_r_bits: u32,
    clear_g_bits: u32,
    clear_b_bits: u32,
    clear_a_bits: u32,
    load_op: LoadOp,
)
    ensures
        final(cmds)@ == old(cmds)@ + (if load_op == LoadOp::Clear {
            seq![
                GlCmd::ClearColor {
                    red_bits: clear_r_bits,
                    green_bits: clear_g_bits,
                    blue_bits: clear_b_bits,
                    alpha_bits: clear_a_bits,
                },
                GlCmd::Clear { mask: gl::COLOR_BUFFER_BIT | gl::DEPTH_BUFFER_BIT },
            ]
        } else {
            Seq::<GlCmd>::empty()
        }),
{
    match load_op {
        LoadOp::Clear => {
            cmds.push(
                GlCmd::ClearColor {
                    red_bits: clear_r_bits,
                    green_bits: clear_g_bits,
                    blue_bits: clear_b_bits,
                    alpha_bits: clear_a_bits,
                },
            );
            cmds.push(GlCmd::Clear { mask: gl::COLOR_BUFFER_BIT | gl::DEPTH_BUFFER_BIT });
            proof {
                assert(cmds@ =~= old(cmds)@ + seq![
                    GlCmd::ClearColor {
                        red_bits: clear_r_bits,
                        green_bits: clear_g_bits,
                        blue_bits: clear_b_bits,
                        alpha_bits: clear_a_bits,
                    },
                    GlCmd::Clear { mask: gl::COLOR_BUFFER_BIT | gl::DEPTH_BUFFER_BIT },
                ]);
            }
        },
        LoadOp::Load => {
            proof {
                assert(cmds@ =~= old(cmds)@ + Seq::<GlCmd>::empty());
            }
        },
    }
}

/// Whether a freshly begun pass encoder is in its initial state.
pub open spec fn spec_encoder_initial(enc: RenderPassEncoder) -> bool {
    &&& enc.current_pipeline is None
    &&& enc.current_topology == gl::TRIANGLES
    &&& spec_layouts(enc.current_vertex_layouts@) == Seq::<VertexBufferLayoutModel>::empty()
    &&& enc.current_index_format == IndexFormat::Uint16
}

fn new_encoder(cmds: Vec<GlCmd>) -> (r: RenderPassEncoder)
    ensures
        r.cmds@ == cmds@,
        spec_encoder_initial(r),
{
    let current_vertex_layouts: Vec<VertexBufferLayout> = Vec::new();
    proof {
        assert(spec_layouts(current_vertex_layouts@) =~= Seq::<VertexBufferLayoutModel>::empty());
    }
    RenderPassEncoder {
        cmds,
        current_pipeline: None,
        current_topology: gl::TRIANGLES,
        current_vertex_layouts,
        current_index_format: IndexFormat::Uint16,
    }
}

/// Begin a render pass on the surface: bind the default framebuffer, size the
/// viewport to the device, and clear when asked to. The clear color travels as
/// four float bit patterns.
pub fn begin_render_pass(
    dev: &DeviceState,
    clear_r_bits: u32,
    clear_g_bits: u32,
    clear_b_bits: u32,
    clear_a_bits: u32,
    load_op: LoadOp,
) -> (r: RenderPassEncoder)
    ensures
        spec_encoder_initial(r),
        models(r.cmds@) == spec_surface_target_cmds(dev.width, dev.height) + spec_clear_cmds(
            clear_r_bits,
            clear_g_bits,
            clear_b_bits,
            clear_a_bits,
            load_op,
        ),
{
    let mut cmds: Vec<GlCmd> = Vec::new();
    cmds.push(GlCmd::BindFramebuffer { target: gl::FRAMEBUFFER, framebuffer: None });
    #[verifier::truncate]
    let w = dev.width as i32;
    #[verifier::truncate]
    let h = dev.height as i32;
    cmds.push(GlCmd::Viewport { x: 0, y: 0, width: w, height: h });
    push_clear_cmds(&mut cmds, clear_r_bits, clear_g_bits, clear_b_bits, clear_a_bits, load_op);
    proof {
        assert(models(cmds@) =~= spec_surface_target_cmds(dev.width, dev.height) + spec_clear_cmds(
            clear_r_bits,
            clear_g_bits,
            clear_b_bits,
            clear_a_bits,
            load_op,
        ));
    }
    new_encoder(cmds)
}

/// Begin a render pass on a texture view. A surface view targets the default
/// framebuffer. A texture view targets that texture's cached framebuffer,
/// created through the framebuffer cache on first use. A view with neither a
/// texture nor the surface mark is reported and falls back to the surface.
/// The clear color travels as four float bit patterns.
pub fn begin_render_pass_with_view(
    dev: &mut DeviceState,
    color_view: &TextureView,
    clear_r_bits: u32,
    clear_g_bits: u32,
    clear_b_bits: u32,
    clear_a_bits: u32,
    load_op: LoadOp,
) -> (r: Result<RenderPassEncoder, Error>)
    requires
        old(dev).wf(),
    ensures
        final(dev).wf(),
        match r {
            Ok(enc) => {
                let clear = spec_clear_cmds(
                    clear_r_bits,
                    clear_g_bits,
                    clear_b_bits,
                    clear_a_bits,
                    load_op,
                );
                &&& spec_encoder_initial(enc)
                &&& if color_view.is_surface_texture {
                    &&& *final(dev) == *old(dev)
                    &&& models(enc.cmds@) == spec_surface_target_cmds(
                        old(dev).width,
                        old(dev).height,
                    ) + clear
                } else {
                    match color_view.texture {
                        Some(tex) => match spec_cache_lookup(old(dev).fbo_cache@, tex) {
                            Some(c) => {
                                &&& *final(dev) == *old(dev)
                                &&& models(enc.cmds@) == spec_fbo_target_cmds(
                                    c.fbo,
                                    color_view.width,
                                    color_view.height,
                                ) + clear
                            },
                            None => {
                                let fbo = FramebufferHandle(old(dev).alloc.next);
                                let rb = RenderbufferHandle((old(dev).alloc.next + 1) as u32);
                                &&& old(dev).alloc.can_issue(2)
                                &&& final(dev).alloc.next == old(dev).alloc.next + 2
                                &&& spec_cache_lookup(final(dev).fbo_cache@, tex) == Some(
                                    crate::fbo_cache::CachedFbo {
                                        fbo,
                                        depth_renderbuffer: rb,
                                        width: color_view.width,
                                        height: color_view.height,
                                    },
                                )
                                &&& models(enc.cmds@) == spec_fbo_create_cmds(
                                    tex,
                                    color_view.width,
                                    color_view.height,
                                    color_view.base_mip_level,
                                    fbo,
                                    rb,
                                ) + spec_fbo_target_cmds(fbo, color_view.width, color_view.height)
                                    + clear
                            },
                        },
                        None => {
                            &&& *final(dev) == *old(dev)
                            &&& models(enc.cmds@) == seq![
                                CmdModel::Report { note: Note::ViewWithoutTexture },
                            ] + spec_surface_target_cmds(old(dev).width, old(dev).height) + clear
                        },
                    }
                }
            },
            Err(e) => {
                &&& e == Error::OutOfHandles
                &&& !color_view.is_surface_texture
                &&& color_view.texture is Some
                &&& spec_cache_lookup(old(dev).fbo_cache@, color_view.texture->Some_0) is None
                &&& !old(dev).alloc.can_issue(2)
                &&& *final(dev) == *old(dev)
            },
        },
{
    if color_view.is_surface() {
        let mut cmds: Vec<GlCmd> = Vec::new();
        cmds.push(GlCmd::BindFramebuffer { target: gl::FRAMEBUFFER, framebuffer: None });
        #[verifier::truncate]
        let w = dev.width as i32;
        #[verifier::truncate]
        let h = dev.height as i32;
        cmds.push(GlCmd::Viewport { x: 0, y: 0, width: w, height: h });
        push_clear_cmds(&mut cmds, clear_r_bits, clear_g_bits, clear_b_bits, clear_a_bits, load_op);
        proof {
            assert(models(cmds@) =~= spec_surface_target_cmds(old(dev).width, old(dev).height)
                + spec_clear_cmds(clear_r_bits, clear_g_bits, clear_b_bits, clear_a_bits, load_op));
        }
        return Ok(new_encoder(cmds));
    }
    match color_view.raw() {
        Some(tex) => {
            let created = dev.get_or_create_framebuffer(
                tex,
                color_view.width,
                color_view.height,
                color_view.base_mip_level,
            )?;
            let fbo = created.0;
            let mut cmds = created.1;
            let ghost base = cmds@;
            cmds.push(GlCmd::BindFramebuffer { target: gl::FRAMEBUFFER, framebuffer: Some(fbo) });
            #[verifier::truncate]
            let w = color_view.width as i32;
            #[verifier::truncate]
            let h = color_view.height as i32;
            cmds.push(GlCmd::Viewport { x: 0, y: 0, width: w, height: h });
            push_clear_cmds(
                &mut cmds,
                clear_r_bits,
                clear_g_bits,
                clear_b_bits,
                clear_a_bits,
                load_op,
            );
            proof {
                let clear = spec_clear_cmds(
                    clear_r_bits,
                    clear_g_bits,
                    clear_b_bits,
                    clear_a_bits,
                    load_op,
                );
                assert(models(cmds@) =~= models(base) + spec_fbo_target_cmds(
                    fbo,
                    color_view.width,
                    color_view.height,
                ) + clear);
                if spec_cache_lookup(old(dev).fbo_cache@, tex) is None {
                    lemma_cache_lookup_none(old(dev).fbo_cache@, tex);
                    assert(forall|j: int|
                        0 <= j < dev.fbo_cache@.len() - 1 ==> (#[trigger] dev.fbo_cache@[j])
                            == old(dev).fbo_cache@[j]);
                    assert(dev.fbo_cache@[dev.fbo_cache@.len() - 1].texture == tex);
                    lemma_cache_lookup_hit(dev.fbo_cache@, tex, dev.fbo_cache@.len() - 1);
                } else {
                    assert((models(base) + spec_fbo_target_cmds(
                        fbo,
                        color_view.width,
                        color_view.height,
                    )) =~= spec_fbo_target_cmds(fbo, color_view.width, color_view.height));
                }
            }
            Ok(new_encoder(cmds))
        },
        None => {
            let mut cmds: Vec<GlCmd> = Vec::new();
            cmds.push(GlCmd::Report { note: Note::ViewWithoutTexture });
            cmds.push(GlCmd::BindFramebuffer { target: gl::FRAMEBUFFER, framebuffer: None });
            #[verifier::truncate]
            let w = dev.width as i32;
            #[verifier::truncate]
            let h = dev.height as i32;
            cmds.push(GlCmd::Viewport { x: 0, y: 0, width: w, height: h });
            push_clear_cmds(&mut cmds, clear_r_bits, clear_g_bits, clear_b_bits, clear_a_bits, load_op);
            proof {
                assert(models(cmds@) =~= seq![
                    CmdModel::Report { note: Note::ViewWithoutTexture },
                ] + spec_surface_target_cmds(old(dev).width, old(dev).height) + spec_clear_cmds(
                    clear_r_bits,
                    clear_g_bits,
                    clear_b_bits,
                    clear_a_bits,
                    load_op,
                ));
            }
            Ok(new_encoder(cmds))
        },
    }
}

/// The commands that set a pipeline: use its program and vertex array, then
/// apply its depth state, then its blend state. Blending is enabled exactly
/// when a blend state is present and does more than overwrite.
pub open spec fn spec_set_pipeline_cmds(p: RenderPipeline) -> Seq<CmdModel> {
    let head = seq![
        CmdModel::UseProgram { program: Some(p.program) },
        CmdModel::BindVertexArray { vao: Some(p.vao) },
    ];
    let depth = if p.depth_test_enabled {
        seq![
            CmdModel::Enable { capability: gl::DEPTH_TEST },
            CmdModel::DepthFunc { func: spec_compare_function_gl(p.depth_compare) },
            CmdModel::DepthMask { flag: p.depth_write_enabled },
        ]
    } else {
        seq![CmdModel::Disable { capability: gl::DEPTH_TEST }]
    };
    let blend = match p.blend_state {
        Some(b) => if spec_blend_enabled(b) {
            seq![
                CmdModel::Enable { capability: gl::BLEND },
                CmdModel::BlendFuncSeparate {
                    src_rgb: spec_blend_factor_gl(b.color.src_factor),
                    dst_rgb: spec_blend_factor_gl(b.color.dst_factor),
                    src_alpha: spec_blend_factor_gl(b.alpha.src_factor),
                    dst_alpha: spec_blend_factor_gl(b.alpha.dst_factor),
                },
                CmdModel::BlendEquationSeparate {
                    mode_rgb: spec_blend_operation_gl(b.color.operation),
                    mode_alpha: spec_blend_operation_gl(b.alpha.operation),
                },
            ]
        } else {
            seq![CmdModel::Disable { capability: gl::BLEND }]
        },
        None => seq![CmdModel::Disable { capability: gl::BLEND }],
    };
    head + depth + blend
}

/// The attribute-configuration commands of one layout at a buffer offset: for
/// each attribute in order, enable its location and point it into the bound
/// buffer at the attribute's offset shifted by the buffer offset.
pub open spec fn spec_attrib_cmds(stride: u32, attrs: Seq<VertexAttribute>, offset: u32) -> Seq<
    CmdModel,
>
    decreases attrs.len(),
{
    if attrs.len() == 0 {
        Seq::<CmdModel>::empty()
    } else {
        spec_attrib_cmds(stride, attrs.drop_last(), offset) + spec_attr_pair(
            stride,
            attrs.last(),
            offset,
        )
    }
}

/// The two commands that wire one attribute.
pub open spec fn spec_attr_pair(stride: u32, attr: VertexAttribute, offset: u32) -> Seq<CmdModel> {
    seq![
        CmdModel::EnableVertexAttribArray { location: attr.location },
        CmdModel::VertexAttribPointer {
            location: attr.location,
            components: crate::format::spec_vertex_format_components(attr.format),
            data_kind: crate::format::spec_vertex_format_gl_type(attr.format),
            normalized: false,
            stride,
            offset: (attr.offset + offset) as u64,
        },
    ]
}

/// The commands that bind a vertex buffer to a slot: bind the buffer, then
/// rewire every attribute of that slot's layout against it at the new offset.
/// A slot without a stored layout binds the buffer and reports the miss.
pub open spec fn spec_vertex_buffer_cmds(
    layouts: Seq<VertexBufferLayoutModel>,
    slot: u32,
    buffer: BufferHandle,
    offset: u32,
) -> Seq<CmdModel> {
    let bind = seq![CmdModel::BindBuffer { target: gl::ARRAY_BUFFER, buffer: Some(buffer) }];
    if (slot as int) < layouts.len() {
        bind + spec_attrib_cmds(
            layouts[slot as int].stride,
            layouts[slot as int].attributes,
            offset,
        )
    } else {
        bind + seq![CmdModel::Report { note: Note::MissingVertexLayout { slot } }]
    }
}

/// Attribute rewiring is complete and fresh: binding a buffer to a slot with a
/// stored layout emits, after the buffer bind, exactly two commands per
/// attribute of that layout — an enable and a pointer configuration carrying
/// the *new* buffer offset — and nothing else. The commands depend only on
/// the layout, the buffer and the offset, so nothing of any earlier binding
/// survives a rebind.
pub proof fn lemma_vertex_buffer_rebind_complete(
    layouts: Seq<VertexBufferLayoutModel>,
    slot: u32,
    buffer: BufferHandle,
    offset: u32,
)
    requires
        (slot as int) < layouts.len(),
    ensures
        ({
            let cmds = spec_vertex_buffer_cmds(layouts, slot, buffer, offset);
            let layout = layouts[slot as int];
            &&& cmds.len() == 1 + 2 * layout.attributes.len()
            &&& cmds[0] == CmdModel::BindBuffer {
                target: gl::ARRAY_BUFFER,
                buffer: Some(buffer),
            }
            &&& forall|k: int|
                0 <= k < layout.attributes.len() ==> cmds[1 + 2 * k]
                    == CmdModel::EnableVertexAttribArray {
                    location: layout.attributes[k].location,
                } && cmds[2 + 2 * k] == CmdModel::VertexAttribPointer {
                    location: layout.attributes[k].location,
                    components: crate::format::spec_vertex_format_components(
                        layout.attributes[k].format,
                    ),
                    data_kind: crate::format::spec_vertex_format_gl_type(
                        layout.attributes[k].format,
                    ),
                    normalized: false,
                    stride: layout.stride,
                    offset: (layout.attributes[k].offset + offset) as u64,
                }
        }),
{
    let layout = layouts[slot as int];
    lemma_attrib_cmds_complete(layout.stride, layout.attributes, offset);
}

/// The attribute commands of a layout, spelled out index by index.
pub proof fn lemma_attrib_cmds_complete(stride: u32, attrs: Seq<VertexAttribute>, offset: u32)
    ensures
        ({
            let cmds = spec_attrib_cmds(stride, attrs, offset);
            &&& cmds.len() == 2 * attrs.len()
            &&& forall|k: int|
                0 <= k < attrs.len() ==> cmds[2 * k] == CmdModel::EnableVertexAttribArray {
                    location: attrs[k].location,
                } && cmds[2 * k + 1] == CmdModel::VertexAttribPointer {
                    location: attrs[k].location,
                    components: crate::format::spec_vertex_format_components(attrs[k].format),
                    data_kind: crate::format::spec_vertex_format_gl_type(attrs[k].format),
                    normalized: false,
                    stride,
                    offset: (attrs[k].offset + offset) as u64,
                }
        }),
    decreases attrs.len(),
{
    if attrs.len() > 0 {
        lemma_attrib_cmds_complete(stride, attrs.drop_last(), offset);
        let n = attrs.len() as int;
        let prev = spec_attrib_cmds(stride, attrs.drop_last(), offset);
        let pair = spec_attr_pair(stride, attrs.last(), offset);
        let cmds = spec_attrib_cmds(stride, attrs, offset);
        assert(cmds == prev + pair);
        assert forall|k: int| 0 <= k < n implies cmds[2 * k]
            == CmdModel::EnableVertexAttribArray { location: attrs[k].location } && cmds[2 * k + 1]
            == CmdModel::VertexAttribPointer {
            location: attrs[k].location,
            components: crate::format::spec_vertex_format_components(attrs[k].format),
            data_kind: crate::format::spec_vertex_format_gl_type(attrs[k].format),
            normalized: false,
            stride,
            offset: (attrs[k].offset + offset) as u64,
        } by {
            if k < n - 1 {
                assert(attrs.drop_last()[k] == attrs[k]);
                assert(cmds[2 * k] == prev[2 * k]);
                assert(cmds[2 * k + 1] == prev[2 * k + 1]);
            } else {
                assert(attrs.last() == attrs[k]);
                assert(cmds[2 * k] == pair[0]);
                assert(cmds[2 * k + 1] == pair[1]);
            }
        }
    }
}

/// The draw commands of a non-indexed draw: instanced exactly when more than
/// one instance is asked for.
pub open spec fn spec_draw_cmds(
    mode: u32,
    vertex_count: u32,
    instance_count: u32,
    first_vertex: u32,
) -> Seq<CmdModel> {
    if instance_count > 1 {
        seq![
            CmdModel::DrawArraysInstanced {
                mode,
                first: first_vertex,
                count: vertex_count,
                instance_count,
            },
        ]
    } else {
        seq![CmdModel::DrawArrays { mode, first: first_vertex, count: vertex_count }]
    }
}

/// The draw commands of an indexed draw: the byte offset into the index buffer
/// is the first index scaled by the index size; instanced exactly when more
/// than one instance is asked for.
pub open spec fn spec_draw_indexed_cmds(
    mode: u32,
    fmt: IndexFormat,
    index_count: u32,
    instance_count: u32,
    first_index: u32,
) -> Seq<CmdModel> {
    let element_kind = spec_index_format_gl(fmt);
    let offset = (first_index * spec_index_format_byte_size(fmt)) as u64;
    if instance_count > 1 {
        seq![
            CmdModel::DrawElementsInstanced {
                mode,
                count: index_count,
                element_kind,
                offset,
                instance_count,
            },
        ]
    } else {
        seq![CmdModel::DrawElements { mode, count: index_count, element_kind, offset }]
    }
}

impl RenderPassEncoder {
    /// Set the render pipeline: use its program and vertex array, apply its
    /// depth and blend state, and store its topology and vertex layouts for
    /// the calls that follow.
    pub fn set_pipeline(&mut self, pipeline: &RenderPipeline)
        ensures
            models(final(self).cmds@) == models(old(self).cmds@) + spec_set_pipeline_cmds(
                *pipeline,
            ),
            final(self).current_pipeline == Some(pipeline.program),
            final(self).current_topology == spec_topology_gl(pipeline.topology),
            spec_layouts(final(self).current_vertex_layouts@) == spec_layouts(
                pipeline.vertex_layouts@,
            ),
            final(self).current_index_format == old(self).current_index_format,
    {
        let ghost head = seq![
            CmdModel::UseProgram { program: Some(pipeline.program) },
            CmdModel::BindVertexArray { vao: Some(pipeline.vao) },
        ];
        let mut add: Vec<GlCmd> = Vec::new();
        add.push(GlCmd::UseProgram { program: Some(pipeline.program) });
        add.push(GlCmd::BindVertexArray { vao: Some(pipeline.vao) });
        if pipeline.depth_test_enabled {
            add.push(GlCmd::Enable { capability: gl::DEPTH_TEST });
            add.push(GlCmd::DepthFunc { func: pipeline.depth_compare.to_gl() });
            add.push(GlCmd::DepthMask { flag: pipeline.depth_write_enabled });
            proof {
                assert(models(add@) =~= head + seq![
                    CmdModel::Enable { capability: gl::DEPTH_TEST },
                    CmdModel::DepthFunc { func: spec_compare_function_gl(pipeline.depth_compare) },
                    CmdModel::DepthMask { flag: pipeline.depth_write_enabled },
                ]);
            }
        } else {
            add.push(GlCmd::Disable { capability: gl::DEPTH_TEST });
            proof {
                assert(models(add@) =~= head + seq![
                    CmdModel::Disable { capability: gl::DEPTH_TEST },
                ]);
            }
        }
        let ghost with_depth = models(add@);
        match pipeline.blend_state {
            Some(blend) => {
                if blend.is_enabled() {
                    add.push(GlCmd::Enable { capability: gl::BLEND });
                    add.push(
                        GlCmd::BlendFuncSeparate {
                            src_rgb: blend.color.src_factor.to_gl(),
                            dst_rgb: blend.color.dst_factor.to_gl(),
                            src_alpha: blend.alpha.src_factor.to_gl(),
                            dst_alpha: blend.alpha.dst_factor.to_gl(),
                        },
                    );
                    add.push(
                        GlCmd::BlendEquationSeparate {
                            mode_rgb: blend.color.operation.to_gl(),
                            mode_alpha: blend.alpha.operation.to_gl(),
                        },
                    );
                    proof {
                        assert(models(add@) =~= with_depth + seq![
                            CmdModel::Enable { capability: gl::BLEND },
                            CmdModel::BlendFuncSeparate {
                                src_rgb: spec_blend_factor_gl(blend.color.src_factor),
                                dst_rgb: spec_blend_factor_gl(blend.color.dst_factor),
                                src_alpha: spec_blend_factor_gl(blend.alpha.src_factor),
                                dst_alpha: spec_blend_factor_gl(blend.alpha.dst_factor),
                            },
                            CmdModel::BlendEquationSeparate {
                                mode_rgb: spec_blend_operation_gl(blend.color.operation),
                                mode_alpha: spec_blend_operation_gl(blend.alpha.operation),
                            },
                        ]);
                    }
                } else {
                    add.push(GlCmd::Disable { capability: gl::BLEND });
                    proof {
                        assert(models(add@) =~= with_depth + seq![
                            CmdModel::Disable { capability: gl::BLEND },
                        ]);
                    }
                }
            },
            None => {
                add.push(GlCmd::Disable { capability: gl::BLEND });
                proof {
                    assert(models(add@) =~= with_depth + seq![
                        CmdModel::Disable { capability: gl::BLEND },
                    ]);
                }
            },
        }
        proof {
            assert(models(add@) =~= spec_set_pipeline_cmds(*pipeline));
        }
        let ghost added = add@;
        self.cmds.append(&mut add);
        self.current_pipeline = Some(pipeline.program);
        self.current_topology = pipeline.topology.to_gl();
        self.current_vertex_layouts = duplicate_layouts(&pipeline.vertex_layouts);
        proof {
            assert(models(self.cmds@) =~= models(old(self).cmds@) + models(added));
        }
    }

    /// Bind a vertex buffer to a slot and rewire that slot's attributes
    /// against it at the given byte offset. Rewiring happens on every call,
    /// with the buffer and offset of *this* call: the attribute configuration
    /// captures the bound buffer, so nothing of an earlier binding survives.
    pub fn set_vertex_buffer(&mut self, slot: u32, buffer: &Buffer, offset: u32)
        ensures
            models(final(self).cmds@) == models(old(self).cmds@) + spec_vertex_buffer_cmds(
                spec_layouts(old(self).current_vertex_layouts@),
                slot,
                buffer.handle,
                offset,
            ),
            final(self).current_pipeline == old(self).current_pipeline,
            final(self).current_topology == old(self).current_topology,
            final(self).current_vertex_layouts == old(self).current_vertex_layouts,
            final(self).current_index_format == old(self).current_index_format,
    {
        self.cmds.push(GlCmd::BindBuffer { target: gl::ARRAY_BUFFER, buffer: Some(buffer.handle) });
        let slot_idx = slot as usize;
        if slot_idx < self.current_vertex_layouts.len() {
            let n = self.current_vertex_layouts[slot_idx].attributes.len();
            let stride = self.current_vertex_layouts[slot_idx].stride;
            proof {
                let attrs = self.current_vertex_layouts@[slot_idx as int]@.attributes;
                assert(attrs.take(0) =~= Seq::<VertexAttribute>::empty());
                assert(models(self.cmds@) =~= models(old(self).cmds@) + seq![
                    CmdModel::BindBuffer { target: gl::ARRAY_BUFFER, buffer: Some(buffer.handle) },
                ] + spec_attrib_cmds(stride, attrs.take(0), offset));
            }
            let mut k: usize = 0;
            while k < n
                invariant
                    k <= n,
                    (slot_idx as int) < self.current_vertex_layouts@.len(),
                    slot_idx == slot as int,
                    n == self.current_vertex_layouts@[slot_idx as int]@.attributes.len(),
                    stride == self.current_vertex_layouts@[slot_idx as int]@.stride,
                    self.current_vertex_layouts == old(self).current_vertex_layouts,
                    self.current_pipeline == old(self).current_pipeline,
                    self.current_topology == old(self).current_topology,
                    self.current_index_format == old(self).current_index_format,
                    models(self.cmds@) == models(old(self).cmds@) + seq![
                        CmdModel::BindBuffer {
                            target: gl::ARRAY_BUFFER,
                            buffer: Some(buffer.handle),
                        },
                    ] + spec_attrib_cmds(
                        stride,
                        self.current_vertex_layouts@[slot_idx as int]@.attributes.take(k as int),
                        offset,
                    ),
                decreases n - k,
            {
                let ghost pre_cmds = self.cmds@;
                let attr = self.current_vertex_layouts[slot_idx].attributes[k];
                self.cmds.push(GlCmd::EnableVertexAttribArray { location: attr.location });
                self.cmds.push(
                    GlCmd::VertexAttribPointer {
                        location: attr.location,
                        components: attr.format.components(),
                        data_kind: attr.format.gl_type(),
                        normalized: false,
                        stride,
                        offset: attr.offset as u64 + offset as u64,
                    },
                );
                proof {
                    let attrs = self.current_vertex_layouts@[slot_idx as int]@.attributes;
                    let bind = seq![
                        CmdModel::BindBuffer {
                            target: gl::ARRAY_BUFFER,
                            buffer: Some(buffer.handle),
                        },
                    ];
                    let head = models(old(self).cmds@);
                    let prev = spec_attrib_cmds(stride, attrs.take(k as int), offset);
                    let pair = spec_attr_pair(stride, attrs[k as int], offset);
                    assert(attrs.take(k + 1).drop_last() =~= attrs.take(k as int));
                    assert(attrs.take(k + 1).last() == attrs[k as int]);
                    assert(spec_attrib_cmds(stride, attrs.take(k + 1), offset) == prev + pair);
                    assert(models(self.cmds@) =~= models(pre_cmds) + pair);
                    assert(models(self.cmds@) == head + bind + prev + pair);
                    assert(head + bind + prev + pair =~= head + bind + (prev + pair));
                }
                k = k + 1;
            }
            proof {
                let attrs = self.current_vertex_layouts@[slot_idx as int]@.attributes;
                assert(attrs.take(n as int) =~= attrs);
                assert(spec_layouts(old(self).current_vertex_layouts@)[slot as int]
                    == old(self).current_vertex_layouts@[slot as int]@);
                assert(models(self.cmds@) =~= models(old(self).cmds@) + spec_vertex_buffer_cmds(
                    spec_layouts(old(self).current_vertex_layouts@),
                    slot,
                    buffer.handle,
                    offset,
                ));
            }
        } else {
            self.cmds.push(GlCmd::Report { note: Note::MissingVertexLayout { slot } });
            proof {
                assert(models(self.cmds@) =~= models(old(self).cmds@) + spec_vertex_buffer_cmds(
                    spec_layouts(old(self).current_vertex_layouts@),
                    slot,
                    buffer.handle,
                    offset,
                ));
            }
        }
    }

    /// Bind the index buffer and record its format for the indexed draws that
    /// follow: a format code of one means wide indices, anything else narrow.
    /// The offset is taken up by the draws, not here.
    pub fn set_index_buffer(&mut self, buffer: &Buffer, format: u32, _offset: u32)
        ensures
            models(final(self).cmds@) == models(old(self).cmds@) + seq![
                CmdModel::BindBuffer {
                    target: gl::ELEMENT_ARRAY_BUFFER,
                    buffer: Some(buffer.handle),
                },
            ],
            final(self).current_index_format == (if format == 1 {
                IndexFormat::Uint32
            } else {
                IndexFormat::Uint16
            }),
            final(self).current_pipeline == old(self).current_pipeline,
            final(self).current_topology == old(self).current_topology,
            final(self).current_vertex_layouts == old(self).current_vertex_layouts,
    {
        self.cmds.push(
            GlCmd::BindBuffer { target: gl::ELEMENT_ARRAY_BUFFER, buffer: Some(buffer.handle) },
        );
        self.current_index_format = if format == 1 {
            IndexFormat::Uint32
        } else {
            IndexFormat::Uint16
        };
        proof {
            assert(models(self.cmds@) =~= models(old(self).cmds@) + seq![
                CmdModel::BindBuffer {
                    target: gl::ELEMENT_ARRAY_BUFFER,
                    buffer: Some(buffer.handle),
                },
            ]);
        }
    }

    /// Apply a bind group at a group index, resolving sampler uniforms against
    /// the program of the pipeline currently set.
    pub fn set_bind_group(&mut self, group_index: u32, bind_group: &BindGroup)
        requires
            forall|k: int|
                0 <= k < bind_group.entries@.len() ==> spec_entry_unit_ok(
                    #[trigger] bind_group.entries@[k],
                ),
        ensures
            models(final(self).cmds@) == models(old(self).cmds@) + spec_apply(
                bind_group.layout@,
                bind_group.entries@,
                group_index,
                old(self).current_pipeline,
            ),
            final(self).current_pipeline == old(self).current_pipeline,
            final(self).current_topology == old(self).current_topology,
            final(self).current_vertex_layouts == old(self).current_vertex_layouts,
            final(self).current_index_format == old(self).current_index_format,
    {
        let mut applied = bind_group.apply(group_index, self.current_pipeline);
        let ghost applied_view = applied@;
        self.cmds.append(&mut applied);
        proof {
            assert(models(self.cmds@) =~= models(old(self).cmds@) + models(applied_view));
        }
    }

    /// Record a viewport, with the depth range as float bit patterns.
    pub fn set_viewport(
        &mut self,
        x: i32,
        y: i32,
        width: i32,
        height: i32,
        min_depth_bits: u32,
        max_depth_bits: u32,
    )
        ensures
            models(final(self).cmds@) == models(old(self).cmds@) + seq![
                CmdModel::Viewport { x, y, width, height },
                CmdModel::DepthRange { near_bits: min_depth_bits, far_bits: max_depth_bits },
            ],
            final(self).current_pipeline == old(self).current_pipeline,
            final(self).current_topology == old(self).current_topology,
            final(self).current_vertex_layouts == old(self).current_vertex_layouts,
            final(self).current_index_format == old(self).current_index_format,
    {
        self.cmds.push(GlCmd::Viewport { x, y, width, height });
        self.cmds.push(
            GlCmd::DepthRange { near_bits: min_depth_bits, far_bits: max_depth_bits },
        );
        proof {
            assert(models(self.cmds@) =~= models(old(self).cmds@) + seq![
                CmdModel::Viewport { x, y, width, height },
                CmdModel::DepthRange { near_bits: min_depth_bits, far_bits: max_depth_bits },
            ]);
        }
    }

    /// Record a scissor rectangle and enable the scissor test.
    pub fn set_scissor_rect(&mut self, x: u32, y: u32, width: u32, height: u32)
        ensures
            models(final(self).cmds@) == models(old(self).cmds@) + seq![
                CmdModel::Enable { capability: gl::SCISSOR_TEST },
                CmdModel::Scissor {
                    x: x as i32,
                    y: y as i32,
                    width: width as i32,
                    height: height as i32,
                },
            ],
            final(self).current_pipeline == old(self).current_pipeline,
            final(self).current_topology == old(self).current_topology,
            final(self).current_vertex_layouts == old(self).current_vertex_layouts,
            final(self).current_index_format == old(self).current_index_format,
    {
        self.cmds.push(GlCmd::Enable { capability: gl::SCISSOR_TEST });
        #[verifier::truncate]
        let xi = x as i32;
        #[verifier::truncate]
        let yi = y as i32;
        #[verifier::truncate]
        let wi = width as i32;
        #[verifier::truncate]
        let hi = height as i32;
        self.cmds.push(GlCmd::Scissor { x: xi, y: yi, width: wi, height: hi });
        proof {
            assert(models(self.cmds@) =~= models(old(self).cmds@) + seq![
                CmdModel::Enable { capability: gl::SCISSOR_TEST },
                CmdModel::Scissor {
                    x: x as i32,
                    y: y as i32,
                    width: width as i32,
                    height: height as i32,
                },
            ]);
        }
    }

    /// Record a draw of `vertex_count` vertices from `first_vertex` under the
    /// current topology; instanced exactly when more than one instance is
    /// asked for. The first-instance argument is accepted for interface parity
    /// and not used.
    pub fn draw(
        &mut self,
        vertex_count: u32,
        instance_count: u32,
        first_vertex: u32,
        _first_instance: u32,
    )
        ensures
            models(final(self).cmds@) == models(old(self).cmds@) + spec_draw_cmds(
                old(self).current_topology,
                vertex_count,
                instance_count,
                first_vertex,
            ),
            final(self).current_pipeline == old(self).current_pipeline,
            final(self).current_topology == old(self).current_topology,
            final(self).current_vertex_layouts == old(self).current_vertex_layouts,
            final(self).current_index_format == old(self).current_index_format,
    {
        if instance_count > 1 {
            self.cmds.push(
                GlCmd::DrawArraysInstanced {
                    mode: self.current_topology,
                    first: first_vertex,
                    count: vertex_count,
                    instance_count,
                },
            );
        } else {
            self.cmds.push(
                GlCmd::DrawArrays {
                    mode: self.current_topology,
                    first: first_vertex,
                    count: vertex_count,
                },
            );
        }
        proof {
            assert(models(self.cmds@) =~= models(old(self).cmds@) + spec_draw_cmds(
                old(self).current_topology,
                vertex_count,
                instance_count,
                first_vertex,
            ));
        }
    }

    /// Record an indexed draw of `index_count` indices starting at
    /// `first_index` under the current topology and index format; instanced
    /// exactly when more than one instance is asked for. The base-vertex and
    /// first-instance arguments are accepted for interface parity and not
    /// used.
    pub fn draw_indexed(
        &mut self,
        index_count: u32,
        instance_count: u32,
        first_index: u32,
        _base_vertex: i32,
        _first_instance: u32,
    )
        ensures
            models(final(self).cmds@) == models(old(self).cmds@) + spec_draw_indexed_cmds(
                old(self).current_topology,
                old(self).current_index_format,
                index_count,
                instance_count,
                first_index,
            ),
            final(self).current_pipeline == old(self).current_pipeline,
            final(self).current_topology == old(self).current_topology,
            final(self).current_vertex_layouts == old(self).current_vertex_layouts,
            final(self).current_index_format == old(self).current_index_format,
    {
        let element_kind = self.current_index_format.to_gl();
        let byte_offset = (first_index as u64) * (self.current_index_format.byte_size() as u64);
        proof {
            assert(byte_offset == (first_index * spec_index_format_byte_size(
                self.current_index_format,
            )) as u64);
        }
        if instance_count > 1 {
            self.cmds.push(
                GlCmd::DrawElementsInstanced {
                    mode: self.current_topology,
                    count: index_count,
                    element_kind,
                    offset: byte_offset,
                    instance_count,
                },
            );
        } else {
            self.cmds.push(
                GlCmd::DrawElements {
                    mode: self.current_topology,
                    count: index_count,
                    element_kind,
                    offset: byte_offset,
                },
            );
        }
        proof {
            assert(models(self.cmds@) =~= models(old(self).cmds@) + spec_draw_indexed_cmds(
                old(self).current_topology,
                old(self).current_index_format,
                index_count,
                instance_count,
                first_index,
            ));
        }
    }

    /// End the pass: unbind the vertex array and program and disable the
    /// scissor test, so no pipeline-scoped state leaks into the next pass.
    /// Returns the pass's whole command sequence.
    pub fn end(self) -> (r: Vec<GlCmd>)
        ensures
            models(r@) == models(self.cmds@) + seq![
                CmdModel::BindVertexArray { vao: None },
                CmdModel::UseProgram { program: None },
                CmdModel::Disable { capability: gl::SCISSOR_TEST },
            ],
    {
        let mut cmds = self.cmds;
        let ghost before = cmds@;
        cmds.push(GlCmd::BindVertexArray { vao: None });
        cmds.push(GlCmd::UseProgram { program: None });
        cmds.push(GlCmd::Disable { capability: gl::SCISSOR_TEST });
        proof {
            assert(models(cmds@) =~= models(before) + seq![
                CmdModel::BindVertexArray { vao: None },
                CmdModel::UseProgram { program: None },
                CmdModel::Disable { capability: gl::SCISSOR_TEST },
            ]);
        }
        cmds
    }
}

/// A command encoder: the passes recorded so far, in order.
pub struct CommandEncoder {
    pub recorded: Vec<GlCmd>,
}

/// A finished command buffer, ready for submission.
pub struct CommandBuffer {
    pub cmds: Vec<GlCmd>,
}

/// A fresh command encoder with nothing recorded.
pub fn create_command_encoder() -> (r: CommandEncoder)
    ensures
        r.recorded@ == Seq::<GlCmd>::empty(),
{
    let recorded: Vec<GlCmd> = Vec::new();
    proof {
        assert(recorded@ =~= Seq::<GlCmd>::empty());
    }
    CommandEncoder { recorded }
}

impl CommandEncoder {
    /// Append an ended pass. Passes run in the order they are added.
    pub fn add_pass(&mut self, mut pass: Vec<GlCmd>)
        ensures
            final(self).recorded@ == old(self).recorded@ + pass@,
    {
        self.recorded.append(&mut pass);
    }

    /// Finish encoding: the buffer holds every added pass, in order.
    pub fn finish(self) -> (r: CommandBuffer)
        ensures
            r.cmds@ == self.recorded@,
    {
        CommandBuffer { cmds: self.recorded }
    }
}

/// Submit a command buffer: its commands in recorded order, then a flush that
/// hands the work to the driver.
pub fn submit(command_buffer: CommandBuffer) -> (r: Vec<GlCmd>)
    ensures
        models(r@) == models(command_buffer.cmds@) + seq![CmdModel::Flush],
{
    let mut cmds = command_buffer.cmds;
    let ghost before = cmds@;
    cmds.push(GlCmd::Flush);
    proof {
        assert(models(cmds@) =~= models(before) + seq![CmdModel::Flush]);
    }
    cmds
}

} // verus!
