//! Bind group emulation.
//!
//! The immediate-mode target has no bind groups. A [`BindGroup`] is a plain
//! value naming the bound resources; [`BindGroup::apply`] turns it into the
//! commands that put those resources into the global binding state right
//! before a draw: uniform buffers go to the buffer binding point equal to the
//! *group index*, textures and samplers go to the texture unit equal to the
//! *entry binding*, and a sampler uniform matching the cross-compiler's naming
//! convention is probed and set for each texture.

use vstd::prelude::*;

use crate::command::CmdModel;
use crate::command::GlCmd;
use crate::command::models;
use crate::command::Note;
use crate::error::Error;
use crate::gl;
use crate::handle::BufferHandle;
use crate::handle::ProgramHandle;
use crate::handle::SamplerHandle;
use crate::handle::TextureHandle;
use crate::reflection::sampler_uniform_name;
use crate::reflection::uniform_name_seq;
use crate::resources::Buffer;
use crate::resources::Sampler;
use crate::resources::Texture;
use crate::resources::TextureView;
use crate::text::str_eq;

verus! {

/// What kind of resource a layout entry declares.
#[derive(Clone, Copy, Debug, PartialEq, Eq, Structural)]
pub enum BindingKind {
    UniformBuffer,
    StorageBuffer,
    StorageBufferReadWrite,
    Sampler,
    SampledTexture,
    StorageTexture,
}

/// One entry of a bind group layout.
#[derive(Clone, Copy, Debug, PartialEq, Eq, Structural)]
pub struct LayoutEntry {
    pub binding: u32,
    /// Shader stage visibility flags.
    pub visibility: u32,
    pub kind: BindingKind,
    pub has_dynamic_offset: bool,
    pub min_binding_size: u64,
}

impl LayoutEntry {
    /// A layout entry without dynamic offset and without a size bound.
    pub fn new(binding: u32, visibility: u32, kind: BindingKind) -> (r: LayoutEntry)
        ensures
            r == (LayoutEntry {
                binding,
                visibility,
                kind,
                has_dynamic_offset: false,
                min_binding_size: 0u64,
            }),
    {
        LayoutEntry { binding, visibility, kind, has_dynamic_offset: false, min_binding_size: 0 }
    }
}

/// Whether the binding numbers in a layout are pairwise distinct.
pub open spec fn spec_bindings_unique(entries: Seq<LayoutEntry>) -> bool {
    forall|i: int, j: int|
        0 <= i < j < entries.len() ==> entries[i].binding != entries[j].binding
}

/// A bind group layout: the declared shape of a bind group. Its binding
/// numbers are unique.
#[derive(Clone, Debug)]
pub struct BindGroupLayout {
    pub entries: Vec<LayoutEntry>,
}

impl BindGroupLayout {
    /// The layout's invariant: binding numbers are pairwise distinct.
    pub open spec fn wf(&self) -> bool {
        spec_bindings_unique(self.entries@)
    }

    /// The number of entries.
    pub fn entry_count(&self) -> (r: usize)
        ensures
            r == self.entries@.len(),
    {
        self.entries.len()
    }
}

/// Build a bind group layout, rejecting duplicate binding numbers.
pub fn create_bind_group_layout(entries: Vec<LayoutEntry>) -> (r: Result<BindGroupLayout, Error>)
    ensures
        match r {
            Ok(l) => spec_bindings_unique(entries@) && l.entries@ == entries@ && l.wf(),
            Err(e) => !spec_bindings_unique(entries@) && e == Error::DuplicateBinding,
        },
{
    let n = entries.len();
    if n <= 1 {
        return Ok(BindGroupLayout { entries });
    }
    let mut i: usize = 1;
    while i < n
        invariant
            1 <= i <= n,
            n == entries@.len(),
            spec_bindings_unique(entries@.take(i as int)),
        decreases n - i,
    {
        let mut j: usize = 0;
        while j < i
            invariant
                j <= i < n,
                n == entries@.len(),
                forall|jj: int| 0 <= jj < j ==> entries@[jj].binding != entries@[i as int].binding,
            decreases i - j,
        {
            if entries[j].binding == entries[i].binding {
                return Err(Error::DuplicateBinding);
            }
            j = j + 1;
        }
        proof {
            assert(spec_bindings_unique(entries@.take(i + 1)));
        }
        i = i + 1;
    }
    proof {
        assert(entries@.take(n as int) =~= entries@);
    }
    Ok(BindGroupLayout { entries })
}

/// Map the binding-type names of the declarative descriptor language onto
/// binding kinds: the storage names map to storage buffers, everything else
/// defaults to a uniform buffer.
pub fn buffer_binding_kind_of_buffer_type(buffer_type: &str) -> (r: BindingKind)
    ensures
        r == spec_buffer_binding_kind(buffer_type@),
{
    if str_eq(buffer_type, "storage") {
        BindingKind::StorageBuffer
    } else if str_eq(buffer_type, "read-only-storage") {
        BindingKind::StorageBuffer
    } else {
        BindingKind::UniformBuffer
    }
}

/// The binding kind a buffer-type name of the descriptor language denotes.
pub open spec fn spec_buffer_binding_kind(buffer_type: Seq<char>) -> BindingKind {
    if buffer_type == "storage"@ || buffer_type == "read-only-storage"@ {
        BindingKind::StorageBuffer
    } else {
        BindingKind::UniformBuffer
    }
}

/// A resource bound by one bind group entry.
#[derive(Clone, Copy, Debug, PartialEq, Eq, Structural)]
pub enum BoundResource {
    /// A byte range of a buffer.
    Buffer { buffer: BufferHandle, offset: u64, size: u64 },
    /// A texture, bound to the entry's texture unit under the given target.
    Texture { texture: TextureHandle, target: u32 },
    /// A sampler, bound to the entry's texture unit.
    Sampler { sampler: SamplerHandle },
    /// A texture and a sampler on the same unit.
    TextureSampler { texture: TextureHandle, sampler: SamplerHandle, target: u32 },
}

/// One entry of a bind group.
#[derive(Clone, Copy, Debug, PartialEq, Eq, Structural)]
pub struct BindGroupEntry {
    pub binding: u32,
    pub resource: BoundResource,
}

/// A bind group: a declarative set of resource bindings, applied as a value to
/// the global binding state before each draw. It holds the layout it was built
/// against and non-owning resource handles.
#[derive(Clone, Debug)]
pub struct BindGroup {
    pub layout: Vec<LayoutEntry>,
    pub entries: Vec<BindGroupEntry>,
}

/// The first layout entry with the given binding number, if any.
pub open spec fn spec_find_layout_entry(layout: Seq<LayoutEntry>, binding: u32) -> Option<
    LayoutEntry,
>
    decreases layout.len(),
{
    if layout.len() == 0 {
        None
    } else if layout[0].binding == binding {
        Some(layout[0])
    } else {
        spec_find_layout_entry(layout.skip(1), binding)
    }
}

/// A hit at `k`, with only misses before it, is what the layout search finds.
proof fn lemma_find_layout_entry_hit(layout: Seq<LayoutEntry>, binding: u32, k: int)
    requires
        0 <= k < layout.len(),
        layout[k].binding == binding,
        forall|j: int| 0 <= j < k ==> layout[j].binding != binding,
    ensures
        spec_find_layout_entry(layout, binding) == Some(layout[k]),
    decreases k,
{
    if k > 0 {
        lemma_find_layout_entry_hit(layout.skip(1), binding, k - 1);
    }
}

/// With no hit anywhere, the layout search misses.
proof fn lemma_find_layout_entry_miss(layout: Seq<LayoutEntry>, binding: u32)
    requires
        forall|j: int| 0 <= j < layout.len() ==> layout[j].binding != binding,
    ensures
        spec_find_layout_entry(layout, binding) is None,
    decreases layout.len(),
{
    if layout.len() > 0 {
        lemma_find_layout_entry_miss(layout.skip(1), binding);
    }
}

/// The first layout entry with the given binding number, if any.
pub fn find_layout_entry(layout: &Vec<LayoutEntry>, binding: u32) -> (r: Option<LayoutEntry>)
    ensures
        r == spec_find_layout_entry(layout@, binding),
{
    let n = layout.len();
    let mut i: usize = 0;
    while i < n
        invariant
            i <= n,
            n == layout@.len(),
            forall|j: int| 0 <= j < i ==> layout@[j].binding != binding,
        decreases n - i,
    {
        if layout[i].binding == binding {
            proof {
                lemma_find_layout_entry_hit(layout@, binding, i as int);
            }
            return Some(layout[i]);
        }
        i = i + 1;
    }
    proof {
        lemma_find_layout_entry_miss(layout@, binding);
    }
    None
}

/// Round trip of a bind group through its layout: in a layout with unique
/// binding numbers, looking any declared binding back up returns exactly the
/// entry declared there. A group carries its layout and its entries unchanged
/// (the builders say so), so building against a layout and inspecting the
/// result preserves the entry count and, at each binding, the declared kind
/// and the bound resource.
pub proof fn lemma_layout_round_trip(layout: Seq<LayoutEntry>, k: int)
    requires
        spec_bindings_unique(layout),
        0 <= k < layout.len(),
    ensures
        spec_find_layout_entry(layout, layout[k].binding) == Some(layout[k]),
{
    assert forall|j: int| 0 <= j < k implies layout[j].binding != layout[k].binding by {
        assert(layout[j].binding != layout[k].binding);
    }
    lemma_find_layout_entry_hit(layout, layout[k].binding, k);
}

/// Whether an entry's texture unit stays within the unit enumeration; this is
/// a machine limit, not a rule of the binding model.
pub open spec fn spec_entry_unit_ok(entry: BindGroupEntry) -> bool {
    match entry.resource {
        BoundResource::Texture { .. } | BoundResource::TextureSampler { .. } => gl::TEXTURE0
            + entry.binding <= u32::MAX,
        _ => true,
    }
}

/// The commands that apply one entry: see [`BindGroup::apply`].
pub open spec fn spec_apply_entry(
    layout: Seq<LayoutEntry>,
    entry: BindGroupEntry,
    group_index: u32,
    program: Option<ProgramHandle>,
) -> Seq<CmdModel> {
    match entry.resource {
        BoundResource::Buffer { buffer, offset, size } => {
            let range = CmdModel::BindBufferRange {
                target: gl::UNIFORM_BUFFER,
                binding_point: group_index,
                buffer,
                offset,
                size,
            };
            match spec_find_layout_entry(layout, entry.binding) {
                Some(le) => match le.kind {
                    BindingKind::UniformBuffer => seq![range],
                    BindingKind::StorageBuffer | BindingKind::StorageBufferReadWrite => seq![
                        CmdModel::Report {
                            note: Note::StorageBufferUnsupported { binding: entry.binding },
                        },
                    ],
                    _ => Seq::empty(),
                },
                None => seq![range],
            }
        },
        BoundResource::Sampler { sampler } => seq![
            CmdModel::BindSampler { unit: entry.binding, sampler: Some(sampler) },
        ],
        BoundResource::Texture { texture, target } => {
            let base = seq![
                CmdModel::ActiveTexture { unit: (gl::TEXTURE0 + entry.binding) as u32 },
                CmdModel::BindTexture { target, texture: Some(texture) },
            ];
            match program {
                Some(prog) => base + seq![
                    CmdModel::TrySetSamplerUniform {
                        program: prog,
                        name_fs: uniform_name_seq(group_index, entry.binding, "_fs"@),
                        name_vs: uniform_name_seq(group_index, entry.binding, "_vs"@),
                        unit: entry.binding,
                    },
                ],
                None => base,
            }
        },
        BoundResource::TextureSampler { texture, sampler, target } => seq![
            CmdModel::ActiveTexture { unit: (gl::TEXTURE0 + entry.binding) as u32 },
            CmdModel::BindTexture { target, texture: Some(texture) },
            CmdModel::BindSampler { unit: entry.binding, sampler: Some(sampler) },
        ],
    }
}

/// The commands that apply a list of entries, in order.
pub open spec fn spec_apply(
    layout: Seq<LayoutEntry>,
    entries: Seq<BindGroupEntry>,
    group_index: u32,
    program: Option<ProgramHandle>,
) -> Seq<CmdModel>
    decreases entries.len(),
{
    if entries.len() == 0 {
        Seq::empty()
    } else {
        spec_apply(layout, entries.drop_last(), group_index, program) + spec_apply_entry(
            layout,
            entries.last(),
            group_index,
            program,
        )
    }
}

impl BindGroup {
    /// The number of entries.
    pub fn entry_count(&self) -> (r: usize)
        ensures
            r == self.entries@.len(),
    {
        self.entries.len()
    }

    /// Apply this bind group to the global binding state, for a draw under
    /// `group_index` with `program` active.
    ///
    /// Per entry, by resource kind:
    /// - a buffer declared (or assumed) a uniform buffer binds its byte range
    ///   to the buffer binding point equal to `group_index`, offset and size
    ///   unchanged; a declared storage buffer is skipped with a report; other
    ///   declared kinds bind nothing;
    /// - a sampler binds to the texture unit equal to the entry's binding;
    /// - a texture activates that unit, binds to it, and, when a program is
    ///   active, probes the stage-suffixed sampler uniform names for the pair
    ///   `(group_index, binding)` and sets the first that exists to the unit;
    /// - a texture-sampler pair combines the last two on one unit.
    pub fn apply(&self, group_index: u32, program: Option<ProgramHandle>) -> (r: Vec<GlCmd>)
        requires
            forall|k: int|
                0 <= k < self.entries@.len() ==> spec_entry_unit_ok(#[trigger] self.entries@[k]),
        ensures
            models(r@) == spec_apply(self.layout@, self.entries@, group_index, program),
    {
        let mut cmds: Vec<GlCmd> = Vec::new();
        let n = self.entries.len();
        let mut i: usize = 0;
        while i < n
            invariant
                i <= n,
                n == self.entries@.len(),
                forall|k: int|
                    0 <= k < self.entries@.len() ==> spec_entry_unit_ok(
                        #[trigger] self.entries@[k],
                    ),
                models(cmds@) == spec_apply(
                    self.layout@,
                    self.entries@.take(i as int),
                    group_index,
                    program,
                ),
            decreases n - i,
        {
            let entry = self.entries[i];
            match entry.resource {
                BoundResource::Buffer { buffer, offset, size } => {
                    match find_layout_entry(&self.layout, entry.binding) {
                        Some(le) => match le.kind {
                            BindingKind::UniformBuffer => {
                                cmds.push(
                                    GlCmd::BindBufferRange {
                                        target: gl::UNIFORM_BUFFER,
                                        binding_point: group_index,
                                        buffer,
                                        offset,
                                        size,
                                    },
                                );
                            },
                            BindingKind::StorageBuffer | BindingKind::StorageBufferReadWrite => {
                                cmds.push(
                                    GlCmd::Report {
                                        note: Note::StorageBufferUnsupported {
                                            binding: entry.binding,
                                        },
                                    },
                                );
                            },
                            _ => {},
                        },
                        None => {
                            cmds.push(
                                GlCmd::BindBufferRange {
                                    target: gl::UNIFORM_BUFFER,
                                    binding_point: group_index,
                                    buffer,
                                    offset,
                                    size,
                                },
                            );
                        },
                    }
                },
                BoundResource::Sampler { sampler } => {
                    cmds.push(GlCmd::BindSampler { unit: entry.binding, sampler: Some(sampler) });
                },
                BoundResource::Texture { texture, target } => {
                    cmds.push(GlCmd::ActiveTexture { unit: gl::TEXTURE0 + entry.binding });
                    cmds.push(GlCmd::BindTexture { target, texture: Some(texture) });
                    match program {
                        Some(prog) => {
                            let name_fs = sampler_uniform_name(group_index, entry.binding, true);
                            let name_vs = sampler_uniform_name(group_index, entry.binding, false);
                            cmds.push(
                                GlCmd::TrySetSamplerUniform {
                                    program: prog,
                                    name_fs,
                                    name_vs,
                                    unit: entry.binding,
                                },
                            );
                        },
                        None => {},
                    }
                },
                BoundResource::TextureSampler { texture, sampler, target } => {
                    cmds.push(GlCmd::ActiveTexture { unit: gl::TEXTURE0 + entry.binding });
                    cmds.push(GlCmd::BindTexture { target, texture: Some(texture) });
                    cmds.push(GlCmd::BindSampler { unit: entry.binding, sampler: Some(sampler) });
                },
            }
            proof {
                assert(self.entries@.take(i + 1).drop_last() =~= self.entries@.take(i as int));
                assert(self.entries@.take(i + 1).last() == self.entries@[i as int]);
                assert(models(cmds@) =~= spec_apply(
                    self.layout@,
                    self.entries@.take(i + 1),
                    group_index,
                    program,
                ));
            }
            i = i + 1;
        }
        proof {
            assert(self.entries@.take(n as int) =~= self.entries@);
        }
        cmds
    }
}

/// Applying a bind group that holds a single buffer entry, declared a uniform
/// buffer (or declared nothing), yields exactly one buffer-range binding: to
/// the binding point equal to the group index, with the entry's byte offset
/// and size unchanged.
pub proof fn lemma_apply_single_buffer(
    layout: Seq<LayoutEntry>,
    entry: BindGroupEntry,
    group_index: u32,
    program: Option<ProgramHandle>,
    buffer: BufferHandle,
    offset: u64,
    size: u64,
)
    requires
        entry.resource == (BoundResource::Buffer { buffer, offset, size }),
        match spec_find_layout_entry(layout, entry.binding) {
            Some(le) => le.kind == BindingKind::UniformBuffer,
            None => true,
        },
    ensures
        spec_apply(layout, seq![entry], group_index, program) == seq![
            CmdModel::BindBufferRange {
                target: gl::UNIFORM_BUFFER,
                binding_point: group_index,
                buffer,
                offset,
                size,
            },
        ],
{
    let entries = seq![entry];
    assert(entries.drop_last() =~= Seq::<BindGroupEntry>::empty());
    assert(entries.last() == entry);
    assert(spec_apply(layout, Seq::<BindGroupEntry>::empty(), group_index, program)
        == Seq::<CmdModel>::empty());
    assert(spec_apply_entry(layout, entry, group_index, program) =~= seq![
        CmdModel::BindBufferRange {
            target: gl::UNIFORM_BUFFER,
            binding_point: group_index,
            buffer,
            offset,
            size,
        },
    ]);
    assert(spec_apply(layout, entries, group_index, program) =~= seq![
        CmdModel::BindBufferRange {
            target: gl::UNIFORM_BUFFER,
            binding_point: group_index,
            buffer,
            offset,
            size,
        },
    ]);
}

/// A bind group with a single buffer range.
pub fn create_bind_group_with_buffer(
    layout: &BindGroupLayout,
    binding: u32,
    buffer: &Buffer,
    offset: u64,
    size: u64,
) -> (r: BindGroup)
    ensures
        r.layout@ == layout.entries@,
        r.entries@ == seq![
            BindGroupEntry {
                binding,
                resource: BoundResource::Buffer { buffer: buffer.handle, offset, size },
            },
        ],
{
    let entries = vec![
        BindGroupEntry {
            binding,
            resource: BoundResource::Buffer { buffer: buffer.handle, offset, size },
        },
    ];
    proof {
        assert(entries@ =~= seq![
            BindGroupEntry {
                binding,
                resource: BoundResource::Buffer { buffer: buffer.handle, offset, size },
            },
        ]);
    }
    BindGroup { layout: clone_layout_entries(layout), entries }
}

/// A bind group with two buffer ranges.
pub fn create_bind_group_with_2_buffers(
    layout: &BindGroupLayout,
    binding0: u32,
    buffer0: &Buffer,
    offset0: u64,
    size0: u64,
    binding1: u32,
    buffer1: &Buffer,
    offset1: u64,
    size1: u64,
) -> (r: BindGroup)
    ensures
        r.layout@ == layout.entries@,
        r.entries@ == seq![
            BindGroupEntry {
                binding: binding0,
                resource: BoundResource::Buffer { buffer: buffer0.handle, offset: offset0, size: size0 },
            },
            BindGroupEntry {
                binding: binding1,
                resource: BoundResource::Buffer { buffer: buffer1.handle, offset: offset1, size: size1 },
            },
        ],
{
    let entries = vec![
        BindGroupEntry {
            binding: binding0,
            resource: BoundResource::Buffer { buffer: buffer0.handle, offset: offset0, size: size0 },
        },
        BindGroupEntry {
            binding: binding1,
            resource: BoundResource::Buffer { buffer: buffer1.handle, offset: offset1, size: size1 },
        },
    ];
    proof {
        assert(entries@ =~= seq![
            BindGroupEntry {
                binding: binding0,
                resource: BoundResource::Buffer {
                    buffer: buffer0.handle,
                    offset: offset0,
                    size: size0,
                },
            },
            BindGroupEntry {
                binding: binding1,
                resource: BoundResource::Buffer {
                    buffer: buffer1.handle,
                    offset: offset1,
                    size: size1,
                },
            },
        ]);
    }
    BindGroup { layout: clone_layout_entries(layout), entries }
}

/// A bind group with three buffer ranges.
pub fn create_bind_group_with_3_buffers(
    layout: &BindGroupLayout,
    binding0: u32,
    buffer0: &Buffer,
    offset0: u64,
    size0: u64,
    binding1: u32,
    buffer1: &Buffer,
    offset1: u64,
    size1: u64,
    binding2: u32,
    buffer2: &Buffer,
    offset2: u64,
    size2: u64,
) -> (r: BindGroup)
    ensures
        r.layout@ == layout.entries@,
        r.entries@ == seq![
            BindGroupEntry {
                binding: binding0,
                resource: BoundResource::Buffer { buffer: buffer0.handle, offset: offset0, size: size0 },
            },
            BindGroupEntry {
                binding: binding1,
                resource: BoundResource::Buffer { buffer: buffer1.handle, offset: offset1, size: size1 },
            },
            BindGroupEntry {
                binding: binding2,
                resource: BoundResource::Buffer { buffer: buffer2.handle, offset: offset2, size: size2 },
            },
        ],
{
    let entries = vec![
        BindGroupEntry {
            binding: binding0,
            resource: BoundResource::Buffer { buffer: buffer0.handle, offset: offset0, size: size0 },
        },
        BindGroupEntry {
            binding: binding1,
            resource: BoundResource::Buffer { buffer: buffer1.handle, offset: offset1, size: size1 },
        },
        BindGroupEntry {
            binding: binding2,
            resource: BoundResource::Buffer { buffer: buffer2.handle, offset: offset2, size: size2 },
        },
    ];
    proof {
        assert(entries@ =~= seq![
            BindGroupEntry {
                binding: binding0,
                resource: BoundResource::Buffer {
                    buffer: buffer0.handle,
                    offset: offset0,
                    size: size0,
                },
            },
            BindGroupEntry {
                binding: binding1,
                resource: BoundResource::Buffer {
                    buffer: buffer1.handle,
                    offset: offset1,
                    size: size1,
                },
            },
            BindGroupEntry {
                binding: binding2,
                resource: BoundResource::Buffer {
                    buffer: buffer2.handle,
                    offset: offset2,
                    size: size2,
                },
            },
        ]);
    }
    BindGroup { layout: clone_layout_entries(layout), entries }
}

/// A bind group with a single sampler.
pub fn create_bind_group_with_sampler(layout: &BindGroupLayout, binding: u32, sampler: &Sampler) -> (r:
    BindGroup)
    ensures
        r.layout@ == layout.entries@,
        r.entries@ == seq![
            BindGroupEntry {
                binding,
                resource: BoundResource::Sampler { sampler: sampler.handle },
            },
        ],
{
    let entries = vec![
        BindGroupEntry { binding, resource: BoundResource::Sampler { sampler: sampler.handle } },
    ];
    proof {
        assert(entries@ =~= seq![
            BindGroupEntry {
                binding,
                resource: BoundResource::Sampler { sampler: sampler.handle },
            },
        ]);
    }
    BindGroup { layout: clone_layout_entries(layout), entries }
}

/// The entries a texture view contributes: one two-dimensional texture entry,
/// or none at all for a surface view, which cannot be sampled.
pub open spec fn spec_texture_view_entries(binding: u32, view: TextureView) -> Seq<BindGroupEntry> {
    match view.texture {
        Some(tex) => seq![
            BindGroupEntry {
                binding,
                resource: BoundResource::Texture { texture: tex, target: gl::TEXTURE_2D },
            },
        ],
        None => Seq::empty(),
    }
}

/// A bind group with a single texture view; a surface view binds nothing and
/// leaves the group empty.
pub fn create_bind_group_with_texture_view(
    layout: &BindGroupLayout,
    binding: u32,
    texture_view: &TextureView,
) -> (r: BindGroup)
    ensures
        r.layout@ == layout.entries@,
        r.entries@ == spec_texture_view_entries(binding, *texture_view),
{
    let mut entries: Vec<BindGroupEntry> = Vec::new();
    match texture_view.raw() {
        Some(tex) => {
            entries.push(
                BindGroupEntry {
                    binding,
                    resource: BoundResource::Texture { texture: tex, target: gl::TEXTURE_2D },
                },
            );
        },
        None => {},
    }
    proof {
        assert(entries@ =~= spec_texture_view_entries(binding, *texture_view));
    }
    BindGroup { layout: clone_layout_entries(layout), entries }
}

/// A bind group with a texture view and a sampler; a surface view contributes
/// no texture entry.
pub fn create_bind_group_with_texture_view_sampler(
    layout: &BindGroupLayout,
    texture_binding: u32,
    texture_view: &TextureView,
    sampler_binding: u32,
    sampler: &Sampler,
) -> (r: BindGroup)
    ensures
        r.layout@ == layout.entries@,
        r.entries@ == spec_texture_view_entries(texture_binding, *texture_view) + seq![
            BindGroupEntry {
                binding: sampler_binding,
                resource: BoundResource::Sampler { sampler: sampler.handle },
            },
        ],
{
    let mut entries: Vec<BindGroupEntry> = Vec::new();
    match texture_view.raw() {
        Some(tex) => {
            entries.push(
                BindGroupEntry {
                    binding: texture_binding,
                    resource: BoundResource::Texture { texture: tex, target: gl::TEXTURE_2D },
                },
            );
        },
        None => {},
    }
    entries.push(
        BindGroupEntry {
            binding: sampler_binding,
            resource: BoundResource::Sampler { sampler: sampler.handle },
        },
    );
    proof {
        assert(entries@ =~= spec_texture_view_entries(texture_binding, *texture_view) + seq![
            BindGroupEntry {
                binding: sampler_binding,
                resource: BoundResource::Sampler { sampler: sampler.handle },
            },
        ]);
    }
    BindGroup { layout: clone_layout_entries(layout), entries }
}

/// A bind group with one buffer range, a texture view and a sampler; a surface
/// view contributes no texture entry.
pub fn create_bind_group_with_buffer_texture_view_sampler(
    layout: &BindGroupLayout,
    buffer_binding: u32,
    buffer: &Buffer,
    buffer_offset: u64,
    buffer_size: u64,
    texture_binding: u32,
    texture_view: &TextureView,
    sampler_binding: u32,
    sampler: &Sampler,
) -> (r: BindGroup)
    ensures
        r.layout@ == layout.entries@,
        r.entries@ == seq![
            BindGroupEntry {
                binding: buffer_binding,
                resource: BoundResource::Buffer {
                    buffer: buffer.handle,
                    offset: buffer_offset,
                    size: buffer_size,
                },
            },
        ] + spec_texture_view_entries(texture_binding, *texture_view) + seq![
            BindGroupEntry {
                binding: sampler_binding,
                resource: BoundResource::Sampler { sampler: sampler.handle },
            },
        ],
{
    let mut entries: Vec<BindGroupEntry> = Vec::new();
    entries.push(
        BindGroupEntry {
            binding: buffer_binding,
            resource: BoundResource::Buffer {
                buffer: buffer.handle,
                offset: buffer_offset,
                size: buffer_size,
            },
        },
    );
    match texture_view.raw() {
        Some(tex) => {
            entries.push(
                BindGroupEntry {
                    binding: texture_binding,
                    resource: BoundResource::Texture { texture: tex, target: gl::TEXTURE_2D },
                },
            );
        },
        None => {},
    }
    entries.push(
        BindGroupEntry {
            binding: sampler_binding,
            resource: BoundResource::Sampler { sampler: sampler.handle },
        },
    );
    proof {
        assert(entries@ =~= seq![
            BindGroupEntry {
                binding: buffer_binding,
                resource: BoundResource::Buffer {
                    buffer: buffer.handle,
                    offset: buffer_offset,
                    size: buffer_size,
                },
            },
        ] + spec_texture_view_entries(texture_binding, *texture_view) + seq![
            BindGroupEntry {
                binding: sampler_binding,
                resource: BoundResource::Sampler { sampler: sampler.handle },
            },
        ]);
    }
    BindGroup { layout: clone_layout_entries(layout), entries }
}

/// A bind group with two buffer ranges, a texture view and a sampler; a
/// surface view contributes no texture entry.
pub fn create_bind_group_with_2_buffers_texture_view_sampler(
    layout: &BindGroupLayout,
    buffer0_binding: u32,
    buffer0: &Buffer,
    buffer0_offset: u64,
    buffer0_size: u64,
    buffer1_binding: u32,
    buffer1: &Buffer,
    buffer1_offset: u64,
    buffer1_size: u64,
    texture_binding: u32,
    texture_view: &TextureView,
    sampler_binding: u32,
    sampler: &Sampler,
) -> (r: BindGroup)
    ensures
        r.layout@ == layout.entries@,
        r.entries@ == seq![
            BindGroupEntry {
                binding: buffer0_binding,
                resource: BoundResource::Buffer {
                    buffer: buffer0.handle,
                    offset: buffer0_offset,
                    size: buffer0_size,
                },
            },
            BindGroupEntry {
                binding: buffer1_binding,
                resource: BoundResource::Buffer {
                    buffer: buffer1.handle,
                    offset: buffer1_offset,
                    size: buffer1_size,
                },
            },
        ] + spec_texture_view_entries(texture_binding, *texture_view) + seq![
            BindGroupEntry {
                binding: sampler_binding,
                resource: BoundResource::Sampler { sampler: sampler.handle },
            },
        ],
{
    let mut entries: Vec<BindGroupEntry> = Vec::new();
    entries.push(
        BindGroupEntry {
            binding: buffer0_binding,
            resource: BoundResource::Buffer {
                buffer: buffer0.handle,
                offset: buffer0_offset,
                size: buffer0_size,
            },
        },
    );
    entries.push(
        BindGroupEntry {
            binding: buffer1_binding,
            resource: BoundResource::Buffer {
                buffer: buffer1.handle,
                offset: buffer1_offset,
                size: buffer1_size,
            },
        },
    );
    match texture_view.raw() {
        Some(tex) => {
            entries.push(
                BindGroupEntry {
                    binding: texture_binding,
                    resource: BoundResource::Texture { texture: tex, target: gl::TEXTURE_2D },
                },
            );
        },
        None => {},
    }
    entries.push(
        BindGroupEntry {
            binding: sampler_binding,
            resource: BoundResource::Sampler { sampler: sampler.handle },
        },
    );
    proof {
        assert(entries@ =~= seq![
            BindGroupEntry {
                binding: buffer0_binding,
                resource: BoundResource::Buffer {
                    buffer: buffer0.handle,
                    offset: buffer0_offset,
                    size: buffer0_size,
                },
            },
            BindGroupEntry {
                binding: buffer1_binding,
                resource: BoundResource::Buffer {
                    buffer: buffer1.handle,
                    offset: buffer1_offset,
                    size: buffer1_size,
                },
            },
        ] + spec_texture_view_entries(texture_binding, *texture_view) + seq![
            BindGroupEntry {
                binding: sampler_binding,
                resource: BoundResource::Sampler { sampler: sampler.handle },
            },
        ]);
    }
    BindGroup { layout: clone_layout_entries(layout), entries }
}

/// The entries a whole texture contributes: one two-dimensional texture
/// entry, or none at all for the surface texture, which cannot be sampled.
pub open spec fn spec_texture_entries(binding: u32, texture: Texture) -> Seq<BindGroupEntry> {
    match texture.handle {
        Some(tex) => seq![
            BindGroupEntry {
                binding,
                resource: BoundResource::Texture { texture: tex, target: gl::TEXTURE_2D },
            },
        ],
        None => Seq::empty(),
    }
}

/// A bind group with a single texture; the surface texture binds nothing and
/// leaves the group empty.
pub fn create_bind_group_with_texture(
    layout: &BindGroupLayout,
    binding: u32,
    texture: &Texture,
) -> (r: BindGroup)
    ensures
        r.layout@ == layout.entries@,
        r.entries@ == spec_texture_entries(binding, *texture),
{
    let mut entries: Vec<BindGroupEntry> = Vec::new();
    match texture.handle {
        Some(tex) => {
            entries.push(
                BindGroupEntry {
                    binding,
                    resource: BoundResource::Texture { texture: tex, target: gl::TEXTURE_2D },
                },
            );
        },
        None => {},
    }
    proof {
        assert(entries@ =~= spec_texture_entries(binding, *texture));
    }
    BindGroup { layout: clone_layout_entries(layout), entries }
}

/// A bind group with a texture and a sampler; the surface texture contributes
/// no texture entry.
pub fn create_bind_group_with_texture_sampler(
    layout: &BindGroupLayout,
    texture_binding: u32,
    texture: &Texture,
    sampler_binding: u32,
    sampler: &Sampler,
) -> (r: BindGroup)
    ensures
        r.layout@ == layout.entries@,
        r.entries@ == spec_texture_entries(texture_binding, *texture) + seq![
            BindGroupEntry {
                binding: sampler_binding,
                resource: BoundResource::Sampler { sampler: sampler.handle },
            },
        ],
{
    let mut entries: Vec<BindGroupEntry> = Vec::new();
    match texture.handle {
        Some(tex) => {
            entries.push(
                BindGroupEntry {
                    binding: texture_binding,
                    resource: BoundResource::Texture { texture: tex, target: gl::TEXTURE_2D },
                },
            );
        },
        None => {},
    }
    entries.push(
        BindGroupEntry {
            binding: sampler_binding,
            resource: BoundResource::Sampler { sampler: sampler.handle },
        },
    );
    proof {
        assert(entries@ =~= spec_texture_entries(texture_binding, *texture) + seq![
            BindGroupEntry {
                binding: sampler_binding,
                resource: BoundResource::Sampler { sampler: sampler.handle },
            },
        ]);
    }
    BindGroup { layout: clone_layout_entries(layout), entries }
}

/// A bind group builder: entries accumulate one call at a time and the group
/// is built against a layout at the end.
pub struct BindGroupBuilder {
    pub entries: Vec<BindGroupEntry>,
}

impl BindGroupBuilder {
    /// An empty builder.
    pub fn new() -> (r: BindGroupBuilder)
        ensures
            r.entries@ == Seq::<BindGroupEntry>::empty(),
    {
        let entries: Vec<BindGroupEntry> = Vec::new();
        proof {
            assert(entries@ =~= Seq::<BindGroupEntry>::empty());
        }
        BindGroupBuilder { entries }
    }

    /// Add a buffer range.
    pub fn add_buffer(&mut self, binding: u32, buffer: &Buffer, offset: u64, size: u64)
        ensures
            final(self).entries@ == old(self).entries@.push(
                BindGroupEntry {
                    binding,
                    resource: BoundResource::Buffer { buffer: buffer.handle, offset, size },
                },
            ),
    {
        self.entries.push(
            BindGroupEntry {
                binding,
                resource: BoundResource::Buffer { buffer: buffer.handle, offset, size },
            },
        );
    }

    /// Add a sampler.
    pub fn add_sampler(&mut self, binding: u32, sampler: &Sampler)
        ensures
            final(self).entries@ == old(self).entries@.push(
                BindGroupEntry {
                    binding,
                    resource: BoundResource::Sampler { sampler: sampler.handle },
                },
            ),
    {
        self.entries.push(
            BindGroupEntry {
                binding,
                resource: BoundResource::Sampler { sampler: sampler.handle },
            },
        );
    }

    /// Add a texture view; a surface view cannot be bound and is rejected.
    pub fn add_texture_view(&mut self, binding: u32, texture_view: &TextureView) -> (r: Result<
        (),
        Error,
    >)
        ensures
            match r {
                Ok(_) => texture_view.texture is Some && final(self).entries@ == old(
                    self,
                ).entries@.push(
                    BindGroupEntry {
                        binding,
                        resource: BoundResource::Texture {
                            texture: texture_view.texture->Some_0,
                            target: gl::TEXTURE_2D,
                        },
                    },
                ),
                Err(e) => e == Error::SurfaceTextureNotBindable && texture_view.texture is None
                    && *final(self) == *old(self),
            },
    {
        match texture_view.raw() {
            Some(tex) => {
                self.entries.push(
                    BindGroupEntry {
                        binding,
                        resource: BoundResource::Texture { texture: tex, target: gl::TEXTURE_2D },
                    },
                );
                Ok(())
            },
            None => Err(Error::SurfaceTextureNotBindable),
        }
    }

    /// Build the bind group against a layout.
    pub fn build(self, layout: &BindGroupLayout) -> (r: BindGroup)
        ensures
            r.layout@ == layout.entries@,
            r.entries@ == self.entries@,
    {
        BindGroup { layout: clone_layout_entries(layout), entries: self.entries }
    }
}

/// An empty bind group.
pub fn create_empty_bind_group(layout: &BindGroupLayout) -> (r: BindGroup)
    ensures
        r.layout@ == layout.entries@,
        r.entries@ == Seq::<BindGroupEntry>::empty(),
{
    let entries: Vec<BindGroupEntry> = Vec::new();
    proof {
        assert(entries@ =~= Seq::<BindGroupEntry>::empty());
    }
    BindGroup { layout: clone_layout_entries(layout), entries }
}

/// Copy a layout's entries for a bind group to carry.
fn clone_layout_entries(layout: &BindGroupLayout) -> (r: Vec<LayoutEntry>)
    ensures
        r@ == layout.entries@,
{
    let n = layout.entries.len();
    let mut out: Vec<LayoutEntry> = Vec::new();
    let mut i: usize = 0;
    while i < n
        invariant
            i <= n,
            n == layout.entries@.len(),
            out@ == layout.entries@.take(i as int),
        decreases n - i,
    {
        out.push(layout.entries[i]);
        proof {
            assert(out@ =~= layout.entries@.take(i + 1));
        }
        i = i + 1;
    }
    proof {
        assert(layout.entries@.take(n as int) =~= layout.entries@);
    }
    out
}

/// A pipeline layout: in the emulation only the number of bind group layouts
/// matters; it is kept for validation.
#[derive(Clone, Copy, Debug, PartialEq, Eq, Structural)]
pub struct PipelineLayout {
    pub bind_group_layout_count: u32,
}

impl PipelineLayout {
    /// The number of bind group layouts.
    pub fn bind_group_layout_count(&self) -> (r: u32)
        ensures
            r == self.bind_group_layout_count,
    {
        self.bind_group_layout_count
    }
}

/// A pipeline-layout builder: bind group layouts are counted one call at a
/// time.
#[derive(Clone, Copy, Debug, PartialEq, Eq, Structural)]
pub struct PipelineLayoutBuilder {
    pub count: u32,
}

impl PipelineLayoutBuilder {
    /// An empty builder.
    pub fn new() -> (r: PipelineLayoutBuilder)
        ensures
            r.count == 0,
    {
        PipelineLayoutBuilder { count: 0 }
    }

    /// Count one more bind group layout; the count stops at the top of its
    /// range.
    pub fn add_bind_group_layout(&mut self, _layout: &BindGroupLayout)
        ensures
            final(self).count == (if old(self).count < u32::MAX {
                (old(self).count + 1) as u32
            } else {
                old(self).count
            }),
    {
        if self.count < u32::MAX {
            self.count = self.count + 1;
        }
    }

    /// Build the pipeline layout.
    pub fn build(self) -> (r: PipelineLayout)
        ensures
            r.bind_group_layout_count == self.count,
    {
        PipelineLayout { bind_group_layout_count: self.count }
    }
}

/// A pipeline layout that records how many bind group layouts it spans.
pub fn create_pipeline_layout(bind_group_layout_count: u32) -> (r: PipelineLayout)
    ensures
        r == (PipelineLayout { bind_group_layout_count }),
{
    PipelineLayout { bind_group_layout_count }
}

} // verus!
