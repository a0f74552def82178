//! Render pipelines: linked programs with their rasterization, depth, blend
//! and vertex-layout state.
//!
//! Vertex-attribute wiring is *not* done at pipeline creation: the
//! immediate-mode attribute-configuration call captures the buffer bound at
//! call time, so the layouts are stored on the pipeline and replayed whenever
//! a vertex buffer is bound to a slot.

use vstd::prelude::*;

use crate::command::CmdModel;
use crate::command::GlCmd;
use crate::command::models;
use crate::bind_group::BindGroupLayout;
use crate::bind_group::LayoutEntry;
use crate::device::DeviceState;
use crate::error::Error;
use crate::format::VertexFormat;
use crate::handle::ProgramHandle;
use crate::handle::ShaderHandle;
use crate::handle::VertexArrayHandle;
use crate::shader::ShaderModule;
use crate::types::BlendState;
use crate::types::CompareFunction;
use crate::types::CullMode;
use crate::types::FrontFace;
use crate::types::PrimitiveTopology;

verus! {

/// One vertex attribute: a shader location, a byte offset within the vertex,
/// and a format.
#[derive(Clone, Copy, Debug, PartialEq, Eq, Structural)]
pub struct VertexAttribute {
    pub location: u32,
    pub offset: u32,
    pub format: VertexFormat,
}

impl VertexAttribute {
    /// Build a vertex attribute.
    pub fn new(location: u32, offset: u32, format: VertexFormat) -> (r: VertexAttribute)
        ensures
            r == (VertexAttribute { location, offset, format }),
    {
        VertexAttribute { location, offset, format }
    }
}

/// The mathematical shadow of a vertex buffer layout.
pub struct VertexBufferLayoutModel {
    pub stride: u32,
    pub attributes: Seq<VertexAttribute>,
}

/// The layout of one vertex buffer slot: a stride and the attributes read from
/// it.
#[derive(Clone, Debug)]
pub struct VertexBufferLayout {
    pub stride: u32,
    pub attributes: Vec<VertexAttribute>,
}

impl View for VertexBufferLayout {
    type V = VertexBufferLayoutModel;

    open spec fn view(&self) -> VertexBufferLayoutModel {
        VertexBufferLayoutModel { stride: self.stride, attributes: self.attributes@ }
    }
}

/// The mathematical shadow of a list of layouts.
pub open spec fn spec_layouts(v: Seq<VertexBufferLayout>) -> Seq<VertexBufferLayoutModel> {
    v.map_values(|l: VertexBufferLayout| l@)
}

impl VertexBufferLayout {
    /// An empty layout with the given stride.
    pub fn new(stride: u32) -> (r: VertexBufferLayout)
        ensures
            r@ == (VertexBufferLayoutModel { stride, attributes: Seq::<VertexAttribute>::empty() }),
    {
        let r = VertexBufferLayout { stride, attributes: Vec::new() };
        proof {
            assert(r@.attributes =~= Seq::<VertexAttribute>::empty());
        }
        r
    }

    /// Add one attribute to the layout.
    pub fn add_attribute(&mut self, location: u32, offset: u32, format: VertexFormat)
        ensures
            final(self)@ == (VertexBufferLayoutModel {
                stride: old(self)@.stride,
                attributes: old(self)@.attributes.push(
                    VertexAttribute { location, offset, format },
                ),
            }),
    {
        self.attributes.push(VertexAttribute { location, offset, format });
    }

    /// Copy a layout.
    pub fn duplicate(&self) -> (r: VertexBufferLayout)
        ensures
            r@ == self@,
    {
        let n = self.attributes.len();
        let mut attributes: Vec<VertexAttribute> = Vec::new();
        let mut i: usize = 0;
        while i < n
            invariant
                i <= n,
                n == self.attributes@.len(),
                attributes@ == self.attributes@.take(i as int),
            decreases n - i,
        {
            attributes.push(self.attributes[i]);
            proof {
                assert(attributes@ =~= self.attributes@.take(i + 1));
            }
            i = i + 1;
        }
        proof {
            assert(self.attributes@.take(n as int) =~= self.attributes@);
        }
        VertexBufferLayout { stride: self.stride, attributes }
    }
}

/// Copy a list of layouts.
pub fn duplicate_layouts(v: &Vec<VertexBufferLayout>) -> (r: Vec<VertexBufferLayout>)
    ensures
        spec_layouts(r@) == spec_layouts(v@),
{
    let n = v.len();
    let mut out: Vec<VertexBufferLayout> = Vec::new();
    let mut i: usize = 0;
    while i < n
        invariant
            i <= n,
            n == v@.len(),
            out@.len() == i,
            forall|k: int| 0 <= k < i ==> (#[trigger] out@[k])@ == v@[k]@,
        decreases n - i,
    {
        out.push(v[i].duplicate());
        i = i + 1;
    }
    proof {
        assert forall|k: int| 0 <= k < v@.len() implies spec_layouts(out@)[k] == spec_layouts(
            v@,
        )[k] by {
            assert(out@[k]@ == v@[k]@);
        }
        assert(spec_layouts(out@) =~= spec_layouts(v@));
    }
    out
}

/// A descriptor from which a render pipeline is created: primitive, cull,
/// depth, blend and vertex-layout state.
#[derive(Clone, Debug)]
pub struct RenderPipelineDescriptor {
    pub topology: PrimitiveTopology,
    pub cull_mode: CullMode,
    pub front_face: FrontFace,
    pub depth_test_enabled: bool,
    pub depth_write_enabled: bool,
    pub depth_compare: CompareFunction,
    pub vertex_layouts: Vec<VertexBufferLayout>,
    pub blend_state: Option<BlendState>,
}

impl RenderPipelineDescriptor {
    /// A descriptor with the given topology and all other state at its
    /// defaults: no culling, counter-clockwise front faces, no depth test, no
    /// vertex layouts, no blending.
    pub fn new(topology: PrimitiveTopology) -> (r: RenderPipelineDescriptor)
        ensures
            r.topology == topology,
            r.cull_mode == CullMode::NoCulling,
            r.front_face == FrontFace::Ccw,
            r.depth_test_enabled == false,
            r.depth_write_enabled == false,
            r.depth_compare == CompareFunction::Less,
            spec_layouts(r.vertex_layouts@) == Seq::<VertexBufferLayoutModel>::empty(),
            r.blend_state is None,
    {
        let r = RenderPipelineDescriptor {
            topology,
            cull_mode: CullMode::NoCulling,
            front_face: FrontFace::Ccw,
            depth_test_enabled: false,
            depth_write_enabled: false,
            depth_compare: CompareFunction::Less,
            vertex_layouts: Vec::new(),
            blend_state: None,
        };
        proof {
            assert(spec_layouts(r.vertex_layouts@) =~= Seq::<VertexBufferLayoutModel>::empty());
        }
        r
    }

    /// Choose the cull mode.
    pub fn set_cull_mode(&mut self, cull_mode: CullMode)
        ensures
            *final(self) == (RenderPipelineDescriptor { cull_mode, ..*old(self) }),
    {
        self.cull_mode = cull_mode;
    }

    /// Choose the front-face winding order.
    pub fn set_front_face(&mut self, front_face: FrontFace)
        ensures
            *final(self) == (RenderPipelineDescriptor { front_face, ..*old(self) }),
    {
        self.front_face = front_face;
    }

    /// Choose the depth state.
    pub fn set_depth_test(&mut self, enabled: bool, write_enabled: bool, compare: CompareFunction)
        ensures
            *final(self) == (RenderPipelineDescriptor {
                depth_test_enabled: enabled,
                depth_write_enabled: write_enabled,
                depth_compare: compare,
                ..*old(self)
            }),
    {
        self.depth_test_enabled = enabled;
        self.depth_write_enabled = write_enabled;
        self.depth_compare = compare;
    }

    /// Choose the blend state of the color attachment.
    pub fn set_blend_state(&mut self, blend: BlendState)
        ensures
            *final(self) == (RenderPipelineDescriptor { blend_state: Some(blend), ..*old(self) }),
    {
        self.blend_state = Some(blend);
    }

    /// Add an empty vertex buffer layout and return its slot index.
    pub fn add_vertex_buffer_layout(&mut self, stride: u32) -> (idx: usize)
        ensures
            idx == old(self).vertex_layouts@.len(),
            spec_layouts(final(self).vertex_layouts@) == spec_layouts(
                old(self).vertex_layouts@,
            ).push(VertexBufferLayoutModel { stride, attributes: Seq::<VertexAttribute>::empty() }),
            final(self).topology == old(self).topology,
            final(self).cull_mode == old(self).cull_mode,
            final(self).front_face == old(self).front_face,
            final(self).depth_test_enabled == old(self).depth_test_enabled,
            final(self).depth_write_enabled == old(self).depth_write_enabled,
            final(self).depth_compare == old(self).depth_compare,
            final(self).blend_state == old(self).blend_state,
    {
        let idx = self.vertex_layouts.len();
        self.vertex_layouts.push(VertexBufferLayout::new(stride));
        proof {
            assert(spec_layouts(self.vertex_layouts@) =~= spec_layouts(
                old(self).vertex_layouts@,
            ).push(VertexBufferLayoutModel { stride, attributes: Seq::<VertexAttribute>::empty() }));
        }
        idx
    }

    /// Add one attribute to the layout at `buffer_index`; out-of-range indices
    /// change nothing.
    pub fn add_vertex_attribute(
        &mut self,
        buffer_index: usize,
        location: u32,
        offset: u32,
        format: VertexFormat,
    )
        ensures
            final(self).topology == old(self).topology,
            final(self).cull_mode == old(self).cull_mode,
            final(self).front_face == old(self).front_face,
            final(self).depth_test_enabled == old(self).depth_test_enabled,
            final(self).depth_write_enabled == old(self).depth_write_enabled,
            final(self).depth_compare == old(self).depth_compare,
            final(self).blend_state == old(self).blend_state,
            if buffer_index < old(self).vertex_layouts@.len() {
                spec_layouts(final(self).vertex_layouts@) == spec_layouts(
                    old(self).vertex_layouts@,
                ).update(
                    buffer_index as int,
                    VertexBufferLayoutModel {
                        stride: old(self).vertex_layouts@[buffer_index as int]@.stride,
                        attributes: old(
                            self,
                        ).vertex_layouts@[buffer_index as int]@.attributes.push(
                            VertexAttribute { location, offset, format },
                        ),
                    },
                )
            } else {
                spec_layouts(final(self).vertex_layouts@) == spec_layouts(
                    old(self).vertex_layouts@,
                )
            },
    {
        if buffer_index < self.vertex_layouts.len() {
            let layout = &mut self.vertex_layouts[buffer_index];
            layout.attributes.push(VertexAttribute { location, offset, format });
            proof {
                assert(spec_layouts(self.vertex_layouts@) =~= spec_layouts(
                    old(self).vertex_layouts@,
                ).update(
                    buffer_index as int,
                    VertexBufferLayoutModel {
                        stride: old(self).vertex_layouts@[buffer_index as int]@.stride,
                        attributes: old(
                            self,
                        ).vertex_layouts@[buffer_index as int]@.attributes.push(
                            VertexAttribute { location, offset, format },
                        ),
                    },
                ));
            }
        }
    }
}

/// A render pipeline: a linked program, its vertex-array object, and the state
/// replayed when the pipeline is set.
#[derive(Clone, Debug)]
pub struct RenderPipeline {
    pub program: ProgramHandle,
    pub vao: VertexArrayHandle,
    pub topology: PrimitiveTopology,
    /// Layouts by vertex buffer slot, replayed at buffer-binding time.
    pub vertex_layouts: Vec<VertexBufferLayout>,
    pub cull_mode: CullMode,
    pub front_face: FrontFace,
    pub depth_test_enabled: bool,
    pub depth_write_enabled: bool,
    pub depth_compare: CompareFunction,
    pub blend_state: Option<BlendState>,
}

impl RenderPipeline {
    /// The bind group layout at an index. Layouts are not tied to pipelines in
    /// the emulation — binding points come from shader reflection — so this is
    /// an empty layout kept for interface parity.
    pub fn get_bind_group_layout(&self, _index: u32) -> (r: BindGroupLayout)
        ensures
            r.entries@ == Seq::<LayoutEntry>::empty(),
    {
        let entries: Vec<LayoutEntry> = Vec::new();
        proof {
            assert(entries@ =~= Seq::<LayoutEntry>::empty());
        }
        BindGroupLayout { entries }
    }

    /// The commands that release the pipeline's program and vertex array.
    pub fn destroy_commands(&self) -> (r: Vec<GlCmd>)
        ensures
            models(r@) == seq![
                CmdModel::DeleteProgram { program: self.program },
                CmdModel::DeleteVertexArray { vao: self.vao },
            ],
    {
        let mut cmds: Vec<GlCmd> = Vec::new();
        cmds.push(GlCmd::DeleteProgram { program: self.program });
        cmds.push(GlCmd::DeleteVertexArray { vao: self.vao });
        proof {
            assert(models(cmds@) =~= seq![
                CmdModel::DeleteProgram { program: self.program },
                CmdModel::DeleteVertexArray { vao: self.vao },
            ]);
        }
        cmds
    }
}

/// The commands that link a program from a module's shaders and create the
/// pipeline's vertex-array object. After the link the shell must read the
/// program's uniform-block reflection and execute the binder's commands (see
/// [`crate::reflection::resolve_uniform_block_bindings`]).
pub open spec fn spec_create_pipeline_cmds(
    vertex_shader: Option<ShaderHandle>,
    fragment_shader: Option<ShaderHandle>,
    program: ProgramHandle,
    vao: VertexArrayHandle,
) -> Seq<CmdModel> {
    let attach_vs = match vertex_shader {
        Some(vs) => seq![CmdModel::AttachShader { program, shader: vs }],
        None => Seq::<CmdModel>::empty(),
    };
    let attach_fs = match fragment_shader {
        Some(fs) => seq![CmdModel::AttachShader { program, shader: fs }],
        None => Seq::<CmdModel>::empty(),
    };
    seq![CmdModel::CreateProgram { program }] + attach_vs + attach_fs + seq![
        CmdModel::LinkProgram { program },
        CmdModel::CreateVertexArray { vao },
    ]
}

/// Create a render pipeline from a full descriptor: link the module's shaders
/// into a fresh program, create a fresh vertex-array object, and carry the
/// descriptor's state onto the pipeline. Whether the link succeeded is
/// reported by the context when the shell executes the commands; the shell
/// then binds the program's uniform blocks through the reflection binder.
pub fn create_render_pipeline_from_descriptor(
    dev: &mut DeviceState,
    module: &ShaderModule,
    descriptor: &RenderPipelineDescriptor,
) -> (r: Result<(RenderPipeline, Vec<GlCmd>), Error>)
    requires
        old(dev).wf(),
    ensures
        final(dev).wf(),
        match r {
            Ok(p) => {
                let program = ProgramHandle(old(dev).alloc.next);
                let vao = VertexArrayHandle((old(dev).alloc.next + 1) as u32);
                &&& old(dev).alloc.can_issue(2)
                &&& final(dev).alloc.next == old(dev).alloc.next + 2
                &&& final(dev).fbo_cache@ == old(dev).fbo_cache@
                &&& final(dev).width == old(dev).width
                &&& final(dev).height == old(dev).height
                &&& p.0.program == program
                &&& p.0.vao == vao
                &&& p.0.topology == descriptor.topology
                &&& spec_layouts(p.0.vertex_layouts@) == spec_layouts(descriptor.vertex_layouts@)
                &&& p.0.cull_mode == descriptor.cull_mode
                &&& p.0.front_face == descriptor.front_face
                &&& p.0.depth_test_enabled == descriptor.depth_test_enabled
                &&& p.0.depth_write_enabled == descriptor.depth_write_enabled
                &&& p.0.depth_compare == descriptor.depth_compare
                &&& p.0.blend_state == descriptor.blend_state
                &&& models(p.1@) == spec_create_pipeline_cmds(
                    module.vertex_shader,
                    module.fragment_shader,
                    program,
                    vao,
                )
            },
            Err(e) => e == Error::OutOfHandles && !old(dev).alloc.can_issue(2) && *final(dev)
                == *old(dev),
        },
{
    if dev.alloc.next >= u32::MAX - 1 {
        return Err(Error::OutOfHandles);
    }
    let (program, vao) = dev.issue_pipeline_handles();
    let mut cmds: Vec<GlCmd> = Vec::new();
    cmds.push(GlCmd::CreateProgram { program });
    match module.vertex_shader {
        Some(vs) => {
            cmds.push(GlCmd::AttachShader { program, shader: vs });
        },
        None => {},
    }
    match module.fragment_shader {
        Some(fs) => {
            cmds.push(GlCmd::AttachShader { program, shader: fs });
        },
        None => {},
    }
    cmds.push(GlCmd::LinkProgram { program });
    cmds.push(GlCmd::CreateVertexArray { vao });
    proof {
        assert(models(cmds@) =~= spec_create_pipeline_cmds(
            module.vertex_shader,
            module.fragment_shader,
            program,
            vao,
        ));
    }
    let pipeline = RenderPipeline {
        program,
        vao,
        topology: descriptor.topology,
        vertex_layouts: duplicate_layouts(&descriptor.vertex_layouts),
        cull_mode: descriptor.cull_mode,
        front_face: descriptor.front_face,
        depth_test_enabled: descriptor.depth_test_enabled,
        depth_write_enabled: descriptor.depth_write_enabled,
        depth_compare: descriptor.depth_compare,
        blend_state: descriptor.blend_state,
    };
    Ok((pipeline, cmds))
}

/// Create a render pipeline with default state and no vertex layouts.
pub fn create_render_pipeline(
    dev: &mut DeviceState,
    module: &ShaderModule,
    topology: PrimitiveTopology,
) -> (r: Result<(RenderPipeline, Vec<GlCmd>), Error>)
    requires
        old(dev).wf(),
    ensures
        final(dev).wf(),
        match r {
            Ok(p) => {
                let program = ProgramHandle(old(dev).alloc.next);
                let vao = VertexArrayHandle((old(dev).alloc.next + 1) as u32);
                &&& old(dev).alloc.can_issue(2)
                &&& final(dev).alloc.next == old(dev).alloc.next + 2
                &&& final(dev).fbo_cache@ == old(dev).fbo_cache@
                &&& p.0.program == program
                &&& p.0.vao == vao
                &&& p.0.topology == topology
                &&& spec_layouts(p.0.vertex_layouts@) == Seq::<VertexBufferLayoutModel>::empty()
                &&& p.0.depth_test_enabled == false
                &&& p.0.blend_state is None
                &&& models(p.1@) == spec_create_pipeline_cmds(
                    module.vertex_shader,
                    module.fragment_shader,
                    program,
                    vao,
                )
            },
            Err(e) => e == Error::OutOfHandles && !old(dev).alloc.can_issue(2) && *final(dev)
                == *old(dev),
        },
{
    let descriptor = RenderPipelineDescriptor::new(topology);
    create_render_pipeline_from_descriptor(dev, module, &descriptor)
}

/// Create a render pipeline with default state and a single vertex buffer
/// layout at slot zero.
pub fn create_render_pipeline_with_layout(
    dev: &mut DeviceState,
    module: &ShaderModule,
    topology: PrimitiveTopology,
    vertex_layout: &VertexBufferLayout,
) -> (r: Result<(RenderPipeline, Vec<GlCmd>), Error>)
    requires
        old(dev).wf(),
    ensures
        final(dev).wf(),
        match r {
            Ok(p) => {
                let program = ProgramHandle(old(dev).alloc.next);
                let vao = VertexArrayHandle((old(dev).alloc.next + 1) as u32);
                &&& old(dev).alloc.can_issue(2)
                &&& final(dev).alloc.next == old(dev).alloc.next + 2
                &&& final(dev).fbo_cache@ == old(dev).fbo_cache@
                &&& p.0.program == program
                &&& p.0.vao == vao
                &&& p.0.topology == topology
                &&& spec_layouts(p.0.vertex_layouts@) == seq![vertex_layout@]
                &&& p.0.depth_test_enabled == false
                &&& p.0.blend_state is None
                &&& models(p.1@) == spec_create_pipeline_cmds(
                    module.vertex_shader,
                    module.fragment_shader,
                    program,
                    vao,
                )
            },
            Err(e) => e == Error::OutOfHandles && !old(dev).alloc.can_issue(2) && *final(dev)
                == *old(dev),
        },
{
    let mut descriptor = RenderPipelineDescriptor::new(topology);
    descriptor.vertex_layouts.push(vertex_layout.duplicate());
    proof {
        assert(spec_layouts(descriptor.vertex_layouts@) =~= seq![vertex_layout@]);
    }
    create_render_pipeline_from_descriptor(dev, module, &descriptor)
}

} // verus!
