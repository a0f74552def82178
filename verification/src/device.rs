//! The device: the single owner of all emulation state.
//!
//! A [`DeviceState`] holds the viewport dimensions, the handle allocator, the
//! framebuffer cache and the object counts. Every creation operation allocates
//! plain handles here and returns the commands that make the real objects;
//! the shell executes them and keeps the handle-to-object mapping.

use vstd::prelude::*;

use crate::command::CmdModel;
use crate::command::GlCmd;
use crate::command::models;
use crate::error::Error;
use crate::fbo_cache::cache_lookup;
use crate::fbo_cache::CachedFbo;
use crate::fbo_cache::FboEntry;
use crate::fbo_cache::lemma_cache_lookup_none;
use crate::fbo_cache::spec_cache_lookup;
use crate::fbo_cache::spec_cache_wf;
use crate::format::spec_texture_format_internal;
use crate::format::TextureFormat;
use crate::gl;
use crate::handle::BufferHandle;
use crate::handle::FramebufferHandle;
use crate::handle::HandleAllocator;
use crate::handle::RenderbufferHandle;
use crate::handle::SamplerHandle;
use crate::handle::ProgramHandle;
use crate::handle::ShaderHandle;
use crate::handle::VertexArrayHandle;
use crate::handle::TextureHandle;
use crate::resources::Buffer;
use crate::resources::Sampler;
use crate::resources::Texture;
use crate::types::AddressMode;
use crate::types::FilterMode;
use crate::types::MipmapFilterMode;
use crate::types::SamplerCompareFunction;
use crate::types::spec_address_mode_gl;
use crate::types::spec_filter_mode_gl_mag;
use crate::types::spec_filter_mode_gl_min;
use crate::types::spec_sampler_compare_gl;
use crate::types::TextureDimension;
use crate::usage::BUFFER_USAGE_INDEX;
use crate::usage::BUFFER_USAGE_MAP_READ;
use crate::usage::BUFFER_USAGE_MAP_WRITE;
use crate::usage::BUFFER_USAGE_UNIFORM;

verus! {

/// Counts of objects created through the device.
#[derive(Clone, Copy, Debug, PartialEq, Eq, Structural)]
pub struct ObjectStats {
    pub buffers: u64,
    pub textures: u64,
    pub samplers: u64,
    pub shader_modules: u64,
    pub render_pipelines: u64,
}

/// A count bumped by one, stopping at the top of the range.
pub open spec fn spec_inc(n: u64) -> u64 {
    if n < u64::MAX {
        (n + 1) as u64
    } else {
        n
    }
}

/// Bump a count by one, stopping at the top of the range.
pub fn inc_count(n: u64) -> (r: u64)
    ensures
        r == spec_inc(n),
{
    if n < u64::MAX {
        n + 1
    } else {
        n
    }
}

impl ObjectStats {
    /// All counts zero.
    pub fn zero() -> (r: ObjectStats)
        ensures
            r == (ObjectStats {
                buffers: 0u64,
                textures: 0u64,
                samplers: 0u64,
                shader_modules: 0u64,
                render_pipelines: 0u64,
            }),
    {
        ObjectStats { buffers: 0, textures: 0, samplers: 0, shader_modules: 0, render_pipelines: 0 }
    }
}

/// The state a device owns: viewport dimensions, the handle allocator, the
/// framebuffer cache and the object counts.
#[derive(Clone, Debug)]
pub struct DeviceState {
    /// Current viewport width (the canvas width).
    pub width: u32,
    /// Current viewport height (the canvas height).
    pub height: u32,
    /// The handle allocator; every handle the device ever issued is below its
    /// `next`.
    pub alloc: HandleAllocator,
    /// The framebuffer cache, keyed by color-texture handle.
    pub fbo_cache: Vec<FboEntry>,
    /// Counts of objects created through this device.
    pub stats: ObjectStats,
}

impl DeviceState {
    /// The device invariant: the cache is well formed and every cached handle
    /// was issued by the allocator.
    pub open spec fn wf(&self) -> bool {
        &&& spec_cache_wf(self.fbo_cache@)
        &&& forall|i: int|
            0 <= i < self.fbo_cache@.len() ==> (#[trigger] self.fbo_cache@[i]).cached.fbo.0
                < self.alloc.next
        &&& forall|i: int|
            0 <= i < self.fbo_cache@.len()
                ==> (#[trigger] self.fbo_cache@[i]).cached.depth_renderbuffer.0 < self.alloc.next
    }

    /// A fresh device for a drawing surface of the given size.
    pub fn new(width: u32, height: u32) -> (r: DeviceState)
        ensures
            r.width == width,
            r.height == height,
            r.alloc.next == 1,
            r.fbo_cache@ == Seq::<FboEntry>::empty(),
            r.stats == (ObjectStats {
                buffers: 0u64,
                textures: 0u64,
                samplers: 0u64,
                shader_modules: 0u64,
                render_pipelines: 0u64,
            }),
            r.wf(),
    {
        let fbo_cache: Vec<FboEntry> = Vec::new();
        proof {
            assert(fbo_cache@ =~= Seq::<FboEntry>::empty());
        }
        DeviceState {
            width,
            height,
            alloc: HandleAllocator::new(),
            fbo_cache,
            stats: ObjectStats::zero(),
        }
    }

    /// Record a new surface size (called when the canvas resizes).
    pub fn set_viewport_size(&mut self, width: u32, height: u32)
        ensures
            *final(self) == (DeviceState { width, height, ..*old(self) }),
    {
        self.width = width;
        self.height = height;
    }

    /// The surface texture: the default framebuffer, reported at the current
    /// canvas size. A changed canvas size is taken over.
    pub fn get_surface_texture(&mut self, canvas_width: u32, canvas_height: u32) -> (r: Texture)
        ensures
            *final(self) == (DeviceState {
                width: canvas_width,
                height: canvas_height,
                ..*old(self)
            }),
            r == (Texture {
                handle: None::<TextureHandle>,
                width: canvas_width,
                height: canvas_height,
                depth_or_array_layers: 1u32,
                format: TextureFormat::Rgba8Unorm,
                is_surface_texture: true,
            }),
    {
        if self.width != canvas_width || self.height != canvas_height {
            self.width = canvas_width;
            self.height = canvas_height;
        }
        proof {
            assert(*self == (DeviceState {
                width: canvas_width,
                height: canvas_height,
                ..*old(self)
            }));
        }
        Texture {
            handle: None,
            width: canvas_width,
            height: canvas_height,
            depth_or_array_layers: 1,
            format: TextureFormat::Rgba8Unorm,
            is_surface_texture: true,
        }
    }

    /// Counts of objects created through this device.
    pub fn get_object_stats(&self) -> (r: ObjectStats)
        ensures
            r == self.stats,
    {
        self.stats
    }

    /// Reset all object counts to zero.
    pub fn reset_object_stats(&mut self)
        ensures
            *final(self) == (DeviceState {
                stats: ObjectStats {
                    buffers: 0u64,
                    textures: 0u64,
                    samplers: 0u64,
                    shader_modules: 0u64,
                    render_pipelines: 0u64,
                },
                ..*old(self)
            }),
    {
        self.stats = ObjectStats::zero();
    }
}

/// The buffer target a usage mask selects: index buffers bind as element
/// arrays, uniform buffers as uniform storage, everything else as a plain
/// array buffer.
pub open spec fn spec_buffer_target(usage: u32) -> u32 {
    if usage & BUFFER_USAGE_INDEX != 0 {
        gl::ELEMENT_ARRAY_BUFFER
    } else if usage & BUFFER_USAGE_UNIFORM != 0 {
        gl::UNIFORM_BUFFER
    } else {
        gl::ARRAY_BUFFER
    }
}

/// The buffer target a usage mask selects.
pub fn buffer_target_for_usage(usage: u32) -> (r: u32)
    ensures
        r == spec_buffer_target(usage),
{
    if usage & BUFFER_USAGE_INDEX != 0 {
        gl::ELEMENT_ARRAY_BUFFER
    } else if usage & BUFFER_USAGE_UNIFORM != 0 {
        gl::UNIFORM_BUFFER
    } else {
        gl::ARRAY_BUFFER
    }
}

/// The allocation hint a usage mask selects: mappable buffers are dynamic,
/// everything else static.
pub open spec fn spec_buffer_usage_hint(usage: u32) -> u32 {
    if usage & (BUFFER_USAGE_MAP_READ | BUFFER_USAGE_MAP_WRITE) != 0 {
        gl::DYNAMIC_DRAW
    } else {
        gl::STATIC_DRAW
    }
}

/// The allocation hint a usage mask selects.
pub fn buffer_usage_hint(usage: u32) -> (r: u32)
    ensures
        r == spec_buffer_usage_hint(usage),
{
    if usage & (BUFFER_USAGE_MAP_READ | BUFFER_USAGE_MAP_WRITE) != 0 {
        gl::DYNAMIC_DRAW
    } else {
        gl::STATIC_DRAW
    }
}

/// The commands that create a buffer of `size` zeroed bytes.
pub open spec fn spec_create_buffer_cmds(handle: BufferHandle, size: u32, usage: u32) -> Seq<
    CmdModel,
> {
    let target = spec_buffer_target(usage);
    let hint = spec_buffer_usage_hint(usage);
    seq![
        CmdModel::CreateBuffer { buffer: handle },
        CmdModel::BindBuffer { target, buffer: Some(handle) },
        CmdModel::BufferDataSize { target, size, usage_hint: hint },
        CmdModel::BindBuffer { target, buffer: None },
    ]
}

/// The commands that create a buffer filled with `data`.
pub open spec fn spec_create_buffer_with_data_cmds(
    handle: BufferHandle,
    data: Seq<u8>,
    usage: u32,
) -> Seq<CmdModel> {
    let target = spec_buffer_target(usage);
    let hint = spec_buffer_usage_hint(usage);
    seq![
        CmdModel::CreateBuffer { buffer: handle },
        CmdModel::BindBuffer { target, buffer: Some(handle) },
        CmdModel::BufferData { target, data, usage_hint: hint },
        CmdModel::BindBuffer { target, buffer: None },
    ]
}

/// The texture target a creation request selects: one-dimensional requests
/// fall back to two-dimensional (the target API has no one-dimensional
/// textures), layered two-dimensional textures become arrays.
pub open spec fn spec_texture_target(
    dimension: TextureDimension,
    depth_or_array_layers: u32,
) -> u32 {
    match dimension {
        TextureDimension::D1 => gl::TEXTURE_2D,
        TextureDimension::D2 => if depth_or_array_layers > 1 {
            gl::TEXTURE_2D_ARRAY
        } else {
            gl::TEXTURE_2D
        },
        TextureDimension::D3 => gl::TEXTURE_3D,
    }
}

/// The commands that create a texture with storage and default sampling
/// parameters.
pub open spec fn spec_create_texture_cmds(
    handle: TextureHandle,
    width: u32,
    height: u32,
    depth_or_array_layers: u32,
    format: TextureFormat,
    dimension: TextureDimension,
    mip_level_count: u32,
) -> Seq<CmdModel> {
    let target = spec_texture_target(dimension, depth_or_array_layers);
    let storage = if target == gl::TEXTURE_2D {
        CmdModel::TexStorage2d {
            target,
            levels: mip_level_count,
            internal_format: spec_texture_format_internal(format),
            width,
            height,
        }
    } else {
        CmdModel::TexStorage3d {
            target,
            levels: mip_level_count,
            internal_format: spec_texture_format_internal(format),
            width,
            height,
            depth: depth_or_array_layers,
        }
    };
    seq![
        CmdModel::CreateTexture { texture: handle },
        CmdModel::BindTexture { target, texture: Some(handle) },
        storage,
        CmdModel::TexParameterI32 {
            target,
            parameter: gl::TEXTURE_MIN_FILTER,
            value: gl::NEAREST,
        },
        CmdModel::TexParameterI32 {
            target,
            parameter: gl::TEXTURE_MAG_FILTER,
            value: gl::NEAREST,
        },
        CmdModel::TexParameterI32 {
            target,
            parameter: gl::TEXTURE_WRAP_S,
            value: gl::CLAMP_TO_EDGE,
        },
        CmdModel::TexParameterI32 {
            target,
            parameter: gl::TEXTURE_WRAP_T,
            value: gl::CLAMP_TO_EDGE,
        },
        CmdModel::BindTexture { target, texture: None },
    ]
}

/// The commands that create a sampler with the given modes. The compare mode
/// is set to reference comparison exactly when a compare function is given;
/// an anisotropy above one is passed on.
pub open spec fn spec_create_sampler_cmds(
    handle: SamplerHandle,
    address_mode_u: AddressMode,
    address_mode_v: AddressMode,
    address_mode_w: AddressMode,
    mag_filter: FilterMode,
    min_filter: FilterMode,
    mipmap_filter: MipmapFilterMode,
    lod_min_clamp_bits: u32,
    lod_max_clamp_bits: u32,
    compare: SamplerCompareFunction,
    max_anisotropy: u16,
) -> Seq<CmdModel> {
    let head = seq![
        CmdModel::CreateSampler { sampler: handle },
        CmdModel::SamplerParameterI32 {
            sampler: handle,
            parameter: gl::TEXTURE_WRAP_S,
            value: spec_address_mode_gl(address_mode_u),
        },
        CmdModel::SamplerParameterI32 {
            sampler: handle,
            parameter: gl::TEXTURE_WRAP_T,
            value: spec_address_mode_gl(address_mode_v),
        },
        CmdModel::SamplerParameterI32 {
            sampler: handle,
            parameter: gl::TEXTURE_WRAP_R,
            value: spec_address_mode_gl(address_mode_w),
        },
        CmdModel::SamplerParameterI32 {
            sampler: handle,
            parameter: gl::TEXTURE_MAG_FILTER,
            value: spec_filter_mode_gl_mag(mag_filter),
        },
        CmdModel::SamplerParameterI32 {
            sampler: handle,
            parameter: gl::TEXTURE_MIN_FILTER,
            value: spec_filter_mode_gl_min(min_filter, mipmap_filter),
        },
        CmdModel::SamplerParameterF32Bits {
            sampler: handle,
            parameter: gl::TEXTURE_MIN_LOD,
            value_bits: lod_min_clamp_bits,
        },
        CmdModel::SamplerParameterF32Bits {
            sampler: handle,
            parameter: gl::TEXTURE_MAX_LOD,
            value_bits: lod_max_clamp_bits,
        },
    ];
    let with_compare = match spec_sampler_compare_gl(compare) {
        Some(func) => head + seq![
            CmdModel::SamplerParameterI32 {
                sampler: handle,
                parameter: gl::TEXTURE_COMPARE_MODE,
                value: gl::COMPARE_REF_TO_TEXTURE,
            },
            CmdModel::SamplerParameterI32 {
                sampler: handle,
                parameter: gl::TEXTURE_COMPARE_FUNC,
                value: func,
            },
        ],
        None => head + seq![
            CmdModel::SamplerParameterI32 {
                sampler: handle,
                parameter: gl::TEXTURE_COMPARE_MODE,
                value: gl::NONE,
            },
        ],
    };
    if max_anisotropy > 1 {
        with_compare + seq![
            CmdModel::SamplerParameterAnisotropy { sampler: handle, max_anisotropy },
        ]
    } else {
        with_compare
    }
}

/// The commands that create the framebuffer-plus-depth pair for a texture used
/// as a render target.
pub open spec fn spec_fbo_create_cmds(
    texture: TextureHandle,
    width: u32,
    height: u32,
    mip_level: u32,
    fbo: FramebufferHandle,
    rb: RenderbufferHandle,
) -> Seq<CmdModel> {
    seq![
        CmdModel::CreateFramebuffer { framebuffer: fbo },
        CmdModel::BindFramebuffer { target: gl::FRAMEBUFFER, framebuffer: Some(fbo) },
        CmdModel::FramebufferTexture2d {
            target: gl::FRAMEBUFFER,
            attachment: gl::COLOR_ATTACHMENT0,
            tex_target: gl::TEXTURE_2D,
            texture,
            level: mip_level,
        },
        CmdModel::CreateRenderbuffer { renderbuffer: rb },
        CmdModel::BindRenderbuffer { target: gl::RENDERBUFFER, renderbuffer: Some(rb) },
        CmdModel::RenderbufferStorage {
            target: gl::RENDERBUFFER,
            internal_format: gl::DEPTH_COMPONENT24,
            width,
            height,
        },
        CmdModel::FramebufferRenderbuffer {
            target: gl::FRAMEBUFFER,
            attachment: gl::DEPTH_ATTACHMENT,
            rb_target: gl::RENDERBUFFER,
            renderbuffer: rb,
        },
        CmdModel::BindRenderbuffer { target: gl::RENDERBUFFER, renderbuffer: None },
        CmdModel::CheckFramebufferStatus { target: gl::FRAMEBUFFER },
    ]
}

impl DeviceState {
    /// Create a buffer of `size` zeroed bytes.
    pub fn create_buffer(&mut self, size: u32, usage: u32) -> (r: Result<(Buffer, Vec<GlCmd>), Error>)
        requires
            old(self).wf(),
        ensures
            final(self).wf(),
            match r {
                Ok(p) => old(self).alloc.can_issue(1) && p.0 == (Buffer {
                    handle: BufferHandle(old(self).alloc.next),
                    size,
                    usage,
                }) && *final(self) == (DeviceState {
                    alloc: HandleAllocator { next: (old(self).alloc.next + 1) as u32 },
                    stats: ObjectStats {
                        buffers: spec_inc(old(self).stats.buffers),
                        ..old(self).stats
                    },
                    ..*old(self)
                }) && models(p.1@) == spec_create_buffer_cmds(
                    BufferHandle(old(self).alloc.next),
                    size,
                    usage,
                ),
                Err(e) => e == Error::OutOfHandles && !old(self).alloc.can_issue(1) && *final(self)
                    == *old(self),
            },
    {
        if self.alloc.next == u32::MAX {
            return Err(Error::OutOfHandles);
        }
        let handle = BufferHandle(self.alloc.issue());
        self.stats.buffers = inc_count(self.stats.buffers);
        let target = buffer_target_for_usage(usage);
        let hint = buffer_usage_hint(usage);
        let mut cmds: Vec<GlCmd> = Vec::new();
        cmds.push(GlCmd::CreateBuffer { buffer: handle });
        cmds.push(GlCmd::BindBuffer { target, buffer: Some(handle) });
        cmds.push(GlCmd::BufferDataSize { target, size, usage_hint: hint });
        cmds.push(GlCmd::BindBuffer { target, buffer: None });
        proof {
            assert(models(cmds@) =~= spec_create_buffer_cmds(handle, size, usage));
        }
        Ok((Buffer { handle, size, usage }, cmds))
    }

    /// Create a buffer holding `data`. The buffer's recorded size is the byte
    /// count of the data, which must fit the size type.
    pub fn create_buffer_with_data(&mut self, data: Vec<u8>, usage: u32) -> (r: Result<
        (Buffer, Vec<GlCmd>),
        Error,
    >)
        requires
            old(self).wf(),
            data@.len() <= u32::MAX,
        ensures
            final(self).wf(),
            match r {
                Ok(p) => old(self).alloc.can_issue(1) && p.0 == (Buffer {
                    handle: BufferHandle(old(self).alloc.next),
                    size: data@.len() as u32,
                    usage,
                }) && *final(self) == (DeviceState {
                    alloc: HandleAllocator { next: (old(self).alloc.next + 1) as u32 },
                    stats: ObjectStats {
                        buffers: spec_inc(old(self).stats.buffers),
                        ..old(self).stats
                    },
                    ..*old(self)
                }) && models(p.1@) == spec_create_buffer_with_data_cmds(
                    BufferHandle(old(self).alloc.next),
                    data@,
                    usage,
                ),
                Err(e) => e == Error::OutOfHandles && !old(self).alloc.can_issue(1) && *final(self)
                    == *old(self),
            },
    {
        if self.alloc.next == u32::MAX {
            return Err(Error::OutOfHandles);
        }
        let handle = BufferHandle(self.alloc.issue());
        self.stats.buffers = inc_count(self.stats.buffers);
        let target = buffer_target_for_usage(usage);
        let hint = buffer_usage_hint(usage);
        let size = data.len() as u32;
        let ghost data_view = data@;
        let mut cmds: Vec<GlCmd> = Vec::new();
        cmds.push(GlCmd::CreateBuffer { buffer: handle });
        cmds.push(GlCmd::BindBuffer { target, buffer: Some(handle) });
        cmds.push(GlCmd::BufferData { target, data, usage_hint: hint });
        cmds.push(GlCmd::BindBuffer { target, buffer: None });
        proof {
            assert(models(cmds@) =~= spec_create_buffer_with_data_cmds(handle, data_view, usage));
        }
        Ok((Buffer { handle, size, usage }, cmds))
    }

    /// Create a texture with storage and default sampling parameters. The
    /// sample count is accepted for interface parity and not used.
    pub fn create_texture(
        &mut self,
        width: u32,
        height: u32,
        depth_or_array_layers: u32,
        format: TextureFormat,
        dimension: TextureDimension,
        mip_level_count: u32,
        _sample_count: u32,
        _usage: u32,
    ) -> (r: Result<(Texture, Vec<GlCmd>), Error>)
        requires
            old(self).wf(),
        ensures
            final(self).wf(),
            match r {
                Ok(p) => old(self).alloc.can_issue(1) && p.0 == (Texture {
                    handle: Some(TextureHandle(old(self).alloc.next)),
                    width,
                    height,
                    depth_or_array_layers,
                    format,
                    is_surface_texture: false,
                }) && *final(self) == (DeviceState {
                    alloc: HandleAllocator { next: (old(self).alloc.next + 1) as u32 },
                    stats: ObjectStats {
                        textures: spec_inc(old(self).stats.textures),
                        ..old(self).stats
                    },
                    ..*old(self)
                }) && models(p.1@) == spec_create_texture_cmds(
                    TextureHandle(old(self).alloc.next),
                    width,
                    height,
                    depth_or_array_layers,
                    format,
                    dimension,
                    mip_level_count,
                ),
                Err(e) => e == Error::OutOfHandles && !old(self).alloc.can_issue(1) && *final(self)
                    == *old(self),
            },
    {
        if self.alloc.next == u32::MAX {
            return Err(Error::OutOfHandles);
        }
        let handle = TextureHandle(self.alloc.issue());
        self.stats.textures = inc_count(self.stats.textures);
        let target = match dimension {
            TextureDimension::D1 => gl::TEXTURE_2D,
            TextureDimension::D2 => if depth_or_array_layers > 1 {
                gl::TEXTURE_2D_ARRAY
            } else {
                gl::TEXTURE_2D
            },
            TextureDimension::D3 => gl::TEXTURE_3D,
        };
        let internal_format = format.gl_internal_format();
        let mut cmds: Vec<GlCmd> = Vec::new();
        cmds.push(GlCmd::CreateTexture { texture: handle });
        cmds.push(GlCmd::BindTexture { target, texture: Some(handle) });
        if target == gl::TEXTURE_2D {
            cmds.push(
                GlCmd::TexStorage2d { target, levels: mip_level_count, internal_format, width, height },
            );
        } else {
            cmds.push(
                GlCmd::TexStorage3d {
                    target,
                    levels: mip_level_count,
                    internal_format,
                    width,
                    height,
                    depth: depth_or_array_layers,
                },
            );
        }
        cmds.push(
            GlCmd::TexParameterI32 { target, parameter: gl::TEXTURE_MIN_FILTER, value: gl::NEAREST },
        );
        cmds.push(
            GlCmd::TexParameterI32 { target, parameter: gl::TEXTURE_MAG_FILTER, value: gl::NEAREST },
        );
        cmds.push(
            GlCmd::TexParameterI32 {
                target,
                parameter: gl::TEXTURE_WRAP_S,
                value: gl::CLAMP_TO_EDGE,
            },
        );
        cmds.push(
            GlCmd::TexParameterI32 {
                target,
                parameter: gl::TEXTURE_WRAP_T,
                value: gl::CLAMP_TO_EDGE,
            },
        );
        cmds.push(GlCmd::BindTexture { target, texture: None });
        proof {
            assert(models(cmds@) =~= spec_create_texture_cmds(
                handle,
                width,
                height,
                depth_or_array_layers,
                format,
                dimension,
                mip_level_count,
            ));
        }
        Ok(
            (
                Texture {
                    handle: Some(handle),
                    width,
                    height,
                    depth_or_array_layers,
                    format,
                    is_surface_texture: false,
                },
                cmds,
            ),
        )
    }

    /// Create a sampler with the given addressing, filtering, level-of-detail
    /// clamps (as float bit patterns), optional depth comparison and
    /// anisotropy.
    pub fn create_sampler(
        &mut self,
        address_mode_u: AddressMode,
        address_mode_v: AddressMode,
        address_mode_w: AddressMode,
        mag_filter: FilterMode,
        min_filter: FilterMode,
        mipmap_filter: MipmapFilterMode,
        lod_min_clamp_bits: u32,
        lod_max_clamp_bits: u32,
        compare: SamplerCompareFunction,
        max_anisotropy: u16,
    ) -> (r: Result<(Sampler, Vec<GlCmd>), Error>)
        requires
            old(self).wf(),
        ensures
            final(self).wf(),
            match r {
                Ok(p) => old(self).alloc.can_issue(1) && p.0 == (Sampler {
                    handle: SamplerHandle(old(self).alloc.next),
                }) && *final(self) == (DeviceState {
                    alloc: HandleAllocator { next: (old(self).alloc.next + 1) as u32 },
                    stats: ObjectStats {
                        samplers: spec_inc(old(self).stats.samplers),
                        ..old(self).stats
                    },
                    ..*old(self)
                }) && models(p.1@) == spec_create_sampler_cmds(
                    SamplerHandle(old(self).alloc.next),
                    address_mode_u,
                    address_mode_v,
                    address_mode_w,
                    mag_filter,
                    min_filter,
                    mipmap_filter,
                    lod_min_clamp_bits,
                    lod_max_clamp_bits,
                    compare,
                    max_anisotropy,
                ),
                Err(e) => e == Error::OutOfHandles && !old(self).alloc.can_issue(1) && *final(self)
                    == *old(self),
            },
    {
        if self.alloc.next == u32::MAX {
            return Err(Error::OutOfHandles);
        }
        let handle = SamplerHandle(self.alloc.issue());
        self.stats.samplers = inc_count(self.stats.samplers);
        let mut cmds: Vec<GlCmd> = Vec::new();
        cmds.push(GlCmd::CreateSampler { sampler: handle });
        cmds.push(
            GlCmd::SamplerParameterI32 {
                sampler: handle,
                parameter: gl::TEXTURE_WRAP_S,
                value: address_mode_u.to_gl(),
            },
        );
        cmds.push(
            GlCmd::SamplerParameterI32 {
                sampler: handle,
                parameter: gl::TEXTURE_WRAP_T,
                value: address_mode_v.to_gl(),
            },
        );
        cmds.push(
            GlCmd::SamplerParameterI32 {
                sampler: handle,
                parameter: gl::TEXTURE_WRAP_R,
                value: address_mode_w.to_gl(),
            },
        );
        cmds.push(
            GlCmd::SamplerParameterI32 {
                sampler: handle,
                parameter: gl::TEXTURE_MAG_FILTER,
                value: mag_filter.to_gl_mag(),
            },
        );
        cmds.push(
            GlCmd::SamplerParameterI32 {
                sampler: handle,
                parameter: gl::TEXTURE_MIN_FILTER,
                value: min_filter.to_gl_min(mipmap_filter),
            },
        );
        cmds.push(
            GlCmd::SamplerParameterF32Bits {
                sampler: handle,
                parameter: gl::TEXTURE_MIN_LOD,
                value_bits: lod_min_clamp_bits,
            },
        );
        cmds.push(
            GlCmd::SamplerParameterF32Bits {
                sampler: handle,
                parameter: gl::TEXTURE_MAX_LOD,
                value_bits: lod_max_clamp_bits,
            },
        );
        match compare.to_gl() {
            Some(func) => {
                cmds.push(
                    GlCmd::SamplerParameterI32 {
                        sampler: handle,
                        parameter: gl::TEXTURE_COMPARE_MODE,
                        value: gl::COMPARE_REF_TO_TEXTURE,
                    },
                );
                cmds.push(
                    GlCmd::SamplerParameterI32 {
                        sampler: handle,
                        parameter: gl::TEXTURE_COMPARE_FUNC,
                        value: func,
                    },
                );
            },
            None => {
                cmds.push(
                    GlCmd::SamplerParameterI32 {
                        sampler: handle,
                        parameter: gl::TEXTURE_COMPARE_MODE,
                        value: gl::NONE,
                    },
                );
            },
        }
        if max_anisotropy > 1 {
            cmds.push(GlCmd::SamplerParameterAnisotropy { sampler: handle, max_anisotropy });
        }
        proof {
            assert(models(cmds@) =~= spec_create_sampler_cmds(
                handle,
                address_mode_u,
                address_mode_v,
                address_mode_w,
                mag_filter,
                min_filter,
                mipmap_filter,
                lod_min_clamp_bits,
                lod_max_clamp_bits,
                compare,
                max_anisotropy,
            ));
        }
        Ok((Sampler { handle }, cmds))
    }

    /// Issue the two shader handles of a new shader module and count it.
    pub fn issue_two_shader_handles(&mut self) -> (r: (ShaderHandle, ShaderHandle))
        requires
            old(self).wf(),
            old(self).alloc.can_issue(2),
        ensures
            final(self).wf(),
            r.0 == ShaderHandle(old(self).alloc.next),
            r.1 == ShaderHandle((old(self).alloc.next + 1) as u32),
            *final(self) == (DeviceState {
                alloc: HandleAllocator { next: (old(self).alloc.next + 2) as u32 },
                stats: ObjectStats {
                    shader_modules: spec_inc(old(self).stats.shader_modules),
                    ..old(self).stats
                },
                ..*old(self)
            }),
    {
        let vs = ShaderHandle(self.alloc.issue());
        let fs = ShaderHandle(self.alloc.issue());
        self.stats.shader_modules = inc_count(self.stats.shader_modules);
        (vs, fs)
    }

    /// Issue the program and vertex-array handles of a new pipeline and
    /// count it.
    pub fn issue_pipeline_handles(&mut self) -> (r: (ProgramHandle, VertexArrayHandle))
        requires
            old(self).wf(),
            old(self).alloc.can_issue(2),
        ensures
            final(self).wf(),
            r.0 == ProgramHandle(old(self).alloc.next),
            r.1 == VertexArrayHandle((old(self).alloc.next + 1) as u32),
            *final(self) == (DeviceState {
                alloc: HandleAllocator { next: (old(self).alloc.next + 2) as u32 },
                stats: ObjectStats {
                    render_pipelines: spec_inc(old(self).stats.render_pipelines),
                    ..old(self).stats
                },
                ..*old(self)
            }),
    {
        let program = ProgramHandle(self.alloc.issue());
        let vao = VertexArrayHandle(self.alloc.issue());
        self.stats.render_pipelines = inc_count(self.stats.render_pipelines);
        (program, vao)
    }

    /// The framebuffer for a texture used as a render target: the cached one
    /// when the texture was seen before (the commands are then empty and
    /// nothing is allocated, whatever the dimensions), else a fresh
    /// framebuffer with a fresh depth renderbuffer sized `width` by `height`,
    /// attached at `mip_level`, checked for completeness, and inserted into
    /// the cache keyed by the texture.
    pub fn get_or_create_framebuffer(
        &mut self,
        texture: TextureHandle,
        width: u32,
        height: u32,
        mip_level: u32,
    ) -> (r: Result<(FramebufferHandle, Vec<GlCmd>), Error>)
        requires
            old(self).wf(),
        ensures
            final(self).wf(),
            match r {
                Ok(p) => match spec_cache_lookup(old(self).fbo_cache@, texture) {
                    Some(c) => p.0 == c.fbo && models(p.1@) == Seq::<CmdModel>::empty()
                        && *final(self) == *old(self),
                    None => {
                        let fbo = FramebufferHandle(old(self).alloc.next);
                        let rb = RenderbufferHandle((old(self).alloc.next + 1) as u32);
                        &&& old(self).alloc.can_issue(2)
                        &&& p.0 == fbo
                        &&& *final(self) == (DeviceState {
                            alloc: HandleAllocator { next: (old(self).alloc.next + 2) as u32 },
                            fbo_cache: final(self).fbo_cache,
                            ..*old(self)
                        })
                        &&& final(self).fbo_cache@ == old(self).fbo_cache@.push(
                            FboEntry {
                                texture,
                                cached: CachedFbo { fbo, depth_renderbuffer: rb, width, height },
                            },
                        )
                        &&& models(p.1@) == spec_fbo_create_cmds(
                            texture,
                            width,
                            height,
                            mip_level,
                            fbo,
                            rb,
                        )
                    },
                },
                Err(e) => e == Error::OutOfHandles && spec_cache_lookup(
                    old(self).fbo_cache@,
                    texture,
                ) is None && !old(self).alloc.can_issue(2) && *final(self) == *old(self),
            },
    {
        match cache_lookup(&self.fbo_cache, texture) {
            Some(c) => {
                let cmds: Vec<GlCmd> = Vec::new();
                proof {
                    assert(models(cmds@) =~= Seq::<CmdModel>::empty());
                }
                Ok((c.fbo, cmds))
            },
            None => {
                if self.alloc.next >= u32::MAX - 1 {
                    return Err(Error::OutOfHandles);
                }
                let fbo = FramebufferHandle(self.alloc.issue());
                let rb = RenderbufferHandle(self.alloc.issue());
                let mut cmds: Vec<GlCmd> = Vec::new();
                cmds.push(GlCmd::CreateFramebuffer { framebuffer: fbo });
                cmds.push(
                    GlCmd::BindFramebuffer { target: gl::FRAMEBUFFER, framebuffer: Some(fbo) },
                );
                cmds.push(
                    GlCmd::FramebufferTexture2d {
                        target: gl::FRAMEBUFFER,
                        attachment: gl::COLOR_ATTACHMENT0,
                        tex_target: gl::TEXTURE_2D,
                        texture,
                        level: mip_level,
                    },
                );
                cmds.push(GlCmd::CreateRenderbuffer { renderbuffer: rb });
                cmds.push(
                    GlCmd::BindRenderbuffer { target: gl::RENDERBUFFER, renderbuffer: Some(rb) },
                );
                cmds.push(
                    GlCmd::RenderbufferStorage {
                        target: gl::RENDERBUFFER,
                        internal_format: gl::DEPTH_COMPONENT24,
                        width,
                        height,
                    },
                );
                cmds.push(
                    GlCmd::FramebufferRenderbuffer {
                        target: gl::FRAMEBUFFER,
                        attachment: gl::DEPTH_ATTACHMENT,
                        rb_target: gl::RENDERBUFFER,
                        renderbuffer: rb,
                    },
                );
                cmds.push(
                    GlCmd::BindRenderbuffer { target: gl::RENDERBUFFER, renderbuffer: None },
                );
                cmds.push(GlCmd::CheckFramebufferStatus { target: gl::FRAMEBUFFER });
                let entry = FboEntry {
                    texture,
                    cached: CachedFbo { fbo, depth_renderbuffer: rb, width, height },
                };
                self.fbo_cache.push(entry);
                proof {
                    lemma_cache_lookup_none(old(self).fbo_cache@, texture);
                    assert(models(cmds@) =~= spec_fbo_create_cmds(
                        texture,
                        width,
                        height,
                        mip_level,
                        fbo,
                        rb,
                    ));
                    assert forall|i: int, j: int| 0 <= i < j < self.fbo_cache@.len() implies (
                    #[trigger] self.fbo_cache@[i]).texture != (
                    #[trigger] self.fbo_cache@[j]).texture by {
                        if j == self.fbo_cache@.len() - 1 {
                            assert(old(self).fbo_cache@[i].texture != texture);
                        }
                    }
                    assert forall|i: int, j: int| 0 <= i < j < self.fbo_cache@.len() implies (
                    #[trigger] self.fbo_cache@[i]).cached.fbo != (
                    #[trigger] self.fbo_cache@[j]).cached.fbo by {
                        if j == self.fbo_cache@.len() - 1 {
                            assert(old(self).fbo_cache@[i].cached.fbo.0 < old(self).alloc.next);
                        }
                    }
                }
                Ok((fbo, cmds))
            },
        }
    }
}

} // verus!
