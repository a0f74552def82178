//! The immediate-mode command stream.
//!
//! Every operation of the library turns into a sequence of commands. Each
//! command names one call of the underlying graphics API with plain values;
//! the unverified shell executes them in order against the real context,
//! mapping handle numbers to real objects. Floating-point arguments travel as
//! their IEEE-754 bit patterns, so the library itself never computes on
//! floats.
//!
//! [`GlCmd`] is the executable command; [`CmdModel`] is its mathematical
//! shadow, with character and byte sequences in place of strings and byte
//! vectors, so that contracts can state a whole command stream as one
//! sequence. [`models`] maps the one to the other.

use vstd::prelude::*;

use crate::handle::BufferHandle;
use crate::handle::FramebufferHandle;
use crate::handle::ProgramHandle;
use crate::handle::RenderbufferHandle;
use crate::handle::SamplerHandle;
use crate::handle::ShaderHandle;
use crate::handle::TextureHandle;
use crate::handle::VertexArrayHandle;

verus! {

/// A diagnostic for the shell to log: the degraded paths of the emulation
/// surface here rather than through a logging facility of their own.
#[derive(Clone, Copy, Debug, PartialEq, Eq, Structural)]
pub enum Note {
    /// A storage-buffer binding was skipped: the target API has none.
    StorageBufferUnsupported { binding: u32 },
    /// A surface texture cannot be bound as a sampled texture.
    SurfaceTextureNotBindable { binding: u32 },
    /// A surface texture cannot be written to.
    SurfaceTextureNotWritable,
    /// A render-target view holds no texture and is not the surface; the pass
    /// falls back to the default framebuffer.
    ViewWithoutTexture,
    /// No vertex layout is stored for this slot; its attributes stay unset.
    MissingVertexLayout { slot: u32 },
    /// A uniform block name matched no recognized convention; its sequential
    /// index serves as the binding point.
    UnrecognizedBlockName { block_index: u32 },
}

/// One call of the immediate-mode graphics API.
#[derive(Clone, Debug, PartialEq)]
pub enum GlCmd {
    // Shaders and programs
    CreateShader { shader: ShaderHandle, stage: u32 },
    ShaderSource { shader: ShaderHandle, source: String },
    CompileShader { shader: ShaderHandle },
    DeleteShader { shader: ShaderHandle },
    CreateProgram { program: ProgramHandle },
    AttachShader { program: ProgramHandle, shader: ShaderHandle },
    LinkProgram { program: ProgramHandle },
    DeleteProgram { program: ProgramHandle },
    UniformBlockBinding { program: ProgramHandle, block_index: u32, binding_point: u32 },
    UseProgram { program: Option<ProgramHandle> },
    /// Probe the program for the fragment-stage sampler uniform name, then the
    /// vertex-stage one; set the first that exists to `unit`, or do nothing.
    TrySetSamplerUniform { program: ProgramHandle, name_fs: String, name_vs: String, unit: u32 },
    // Vertex arrays and attributes
    CreateVertexArray { vao: VertexArrayHandle },
    BindVertexArray { vao: Option<VertexArrayHandle> },
    DeleteVertexArray { vao: VertexArrayHandle },
    EnableVertexAttribArray { location: u32 },
    VertexAttribPointer {
        location: u32,
        components: u32,
        data_kind: u32,
        normalized: bool,
        stride: u32,
        offset: u64,
    },
    // Buffers
    CreateBuffer { buffer: BufferHandle },
    BindBuffer { target: u32, buffer: Option<BufferHandle> },
    BufferDataSize { target: u32, size: u32, usage_hint: u32 },
    BufferData { target: u32, data: Vec<u8>, usage_hint: u32 },
    BufferSubData { target: u32, offset: u32, data: Vec<u8> },
    BindBufferRange { target: u32, binding_point: u32, buffer: BufferHandle, offset: u64, size: u64 },
    DeleteBuffer { buffer: BufferHandle },
    // Textures
    CreateTexture { texture: TextureHandle },
    BindTexture { target: u32, texture: Option<TextureHandle> },
    TexStorage2d { target: u32, levels: u32, internal_format: u32, width: u32, height: u32 },
    TexStorage3d {
        target: u32,
        levels: u32,
        internal_format: u32,
        width: u32,
        height: u32,
        depth: u32,
    },
    TexSubImage2d {
        target: u32,
        level: u32,
        x: u32,
        y: u32,
        width: u32,
        height: u32,
        format: u32,
        data_kind: u32,
        data: Vec<u8>,
    },
    TexSubImage3d {
        target: u32,
        level: u32,
        x: u32,
        y: u32,
        z: u32,
        width: u32,
        height: u32,
        depth: u32,
        format: u32,
        data_kind: u32,
        data: Vec<u8>,
    },
    TexParameterI32 { target: u32, parameter: u32, value: u32 },
    PixelStoreI32 { parameter: u32, value: u32 },
    ActiveTexture { unit: u32 },
    DeleteTexture { texture: TextureHandle },
    // Samplers
    CreateSampler { sampler: SamplerHandle },
    BindSampler { unit: u32, sampler: Option<SamplerHandle> },
    SamplerParameterI32 { sampler: SamplerHandle, parameter: u32, value: u32 },
    SamplerParameterF32Bits { sampler: SamplerHandle, parameter: u32, value_bits: u32 },
    /// Set the anisotropy parameter to the given whole number of samples.
    SamplerParameterAnisotropy { sampler: SamplerHandle, max_anisotropy: u16 },
    DeleteSampler { sampler: SamplerHandle },
    // Framebuffers and renderbuffers
    CreateFramebuffer { framebuffer: FramebufferHandle },
    BindFramebuffer { target: u32, framebuffer: Option<FramebufferHandle> },
    FramebufferTexture2d {
        target: u32,
        attachment: u32,
        tex_target: u32,
        texture: TextureHandle,
        level: u32,
    },
    CreateRenderbuffer { renderbuffer: RenderbufferHandle },
    BindRenderbuffer { target: u32, renderbuffer: Option<RenderbufferHandle> },
    RenderbufferStorage { target: u32, internal_format: u32, width: u32, height: u32 },
    FramebufferRenderbuffer {
        target: u32,
        attachment: u32,
        rb_target: u32,
        renderbuffer: RenderbufferHandle,
    },
    /// Query completeness of the bound framebuffer and log an error when it is
    /// not complete; rendering proceeds either way.
    CheckFramebufferStatus { target: u32 },
    // Global state
    Enable { capability: u32 },
    Disable { capability: u32 },
    DepthFunc { func: u32 },
    DepthMask { flag: bool },
    DepthRange { near_bits: u32, far_bits: u32 },
    BlendFuncSeparate { src_rgb: u32, dst_rgb: u32, src_alpha: u32, dst_alpha: u32 },
    BlendEquationSeparate { mode_rgb: u32, mode_alpha: u32 },
    Viewport { x: i32, y: i32, width: i32, height: i32 },
    Scissor { x: i32, y: i32, width: i32, height: i32 },
    ClearColor { red_bits: u32, green_bits: u32, blue_bits: u32, alpha_bits: u32 },
    Clear { mask: u32 },
    Flush,
    // Draw calls
    DrawArrays { mode: u32, first: u32, count: u32 },
    DrawArraysInstanced { mode: u32, first: u32, count: u32, instance_count: u32 },
    DrawElements { mode: u32, count: u32, element_kind: u32, offset: u64 },
    DrawElementsInstanced {
        mode: u32,
        count: u32,
        element_kind: u32,
        offset: u64,
        instance_count: u32,
    },
    /// A diagnostic for the shell to log.
    Report { note: Note },
}

/// The mathematical shadow of [`GlCmd`]: the same constructors, with character
/// sequences for strings and byte sequences for byte vectors.
pub enum CmdModel {
    CreateShader { shader: ShaderHandle, stage: u32 },
    ShaderSource { shader: ShaderHandle, source: Seq<char> },
    CompileShader { shader: ShaderHandle },
    DeleteShader { shader: ShaderHandle },
    CreateProgram { program: ProgramHandle },
    AttachShader { program: ProgramHandle, shader: ShaderHandle },
    LinkProgram { program: ProgramHandle },
    DeleteProgram { program: ProgramHandle },
    UniformBlockBinding { program: ProgramHandle, block_index: u32, binding_point: u32 },
    UseProgram { program: Option<ProgramHandle> },
    TrySetSamplerUniform {
        program: ProgramHandle,
        name_fs: Seq<char>,
        name_vs: Seq<char>,
        unit: u32,
    },
    CreateVertexArray { vao: VertexArrayHandle },
    BindVertexArray { vao: Option<VertexArrayHandle> },
    DeleteVertexArray { vao: VertexArrayHandle },
    EnableVertexAttribArray { location: u32 },
    VertexAttribPointer {
        location: u32,
        components: u32,
        data_kind: u32,
        normalized: bool,
        stride: u32,
        offset: u64,
    },
    CreateBuffer { buffer: BufferHandle },
    BindBuffer { target: u32, buffer: Option<BufferHandle> },
    BufferDataSize { target: u32, size: u32, usage_hint: u32 },
    BufferData { target: u32, data: Seq<u8>, usage_hint: u32 },
    BufferSubData { target: u32, offset: u32, data: Seq<u8> },
    BindBufferRange { target: u32, binding_point: u32, buffer: BufferHandle, offset: u64, size: u64 },
    DeleteBuffer { buffer: BufferHandle },
    CreateTexture { texture: TextureHandle },
    BindTexture { target: u32, texture: Option<TextureHandle> },
    TexStorage2d { target: u32, levels: u32, internal_format: u32, width: u32, height: u32 },
    TexStorage3d {
        target: u32,
        levels: u32,
        internal_format: u32,
        width: u32,
        height: u32,
        depth: u32,
    },
    TexSubImage2d {
        target: u32,
        level: u32,
        x: u32,
        y: u32,
        width: u32,
        height: u32,
        format: u32,
        data_kind: u32,
        data: Seq<u8>,
    },
    TexSubImage3d {
        target: u32,
        level: u32,
        x: u32,
        y: u32,
        z: u32,
        width: u32,
        height: u32,
        depth: u32,
        format: u32,
        data_kind: u32,
        data: Seq<u8>,
    },
    TexParameterI32 { target: u32, parameter: u32, value: u32 },
    PixelStoreI32 { parameter: u32, value: u32 },
    ActiveTexture { unit: u32 },
    DeleteTexture { texture: TextureHandle },
    CreateSampler { sampler: SamplerHandle },
    BindSampler { unit: u32, sampler: Option<SamplerHandle> },
    SamplerParameterI32 { sampler: SamplerHandle, parameter: u32, value: u32 },
    SamplerParameterF32Bits { sampler: SamplerHandle, parameter: u32, value_bits: u32 },
    SamplerParameterAnisotropy { sampler: SamplerHandle, max_anisotropy: u16 },
    DeleteSampler { sampler: SamplerHandle },
    CreateFramebuffer { framebuffer: FramebufferHandle },
    BindFramebuffer { target: u32, framebuffer: Option<FramebufferHandle> },
    FramebufferTexture2d {
        target: u32,
        attachment: u32,
        tex_target: u32,
        texture: TextureHandle,
        level: u32,
    },
    CreateRenderbuffer { renderbuffer: RenderbufferHandle },
    BindRenderbuffer { target: u32, renderbuffer: Option<RenderbufferHandle> },
    RenderbufferStorage { target: u32, internal_format: u32, width: u32, height: u32 },
    FramebufferRenderbuffer {
        target: u32,
        attachment: u32,
        rb_target: u32,
        renderbuffer: RenderbufferHandle,
    },
    CheckFramebufferStatus { target: u32 },
    Enable { capability: u32 },
    Disable { capability: u32 },
    DepthFunc { func: u32 },
    DepthMask { flag: bool },
    DepthRange { near_bits: u32, far_bits: u32 },
    BlendFuncSeparate { src_rgb: u32, dst_rgb: u32, src_alpha: u32, dst_alpha: u32 },
    BlendEquationSeparate { mode_rgb: u32, mode_alpha: u32 },
    Viewport { x: i32, y: i32, width: i32, height: i32 },
    Scissor { x: i32, y: i32, width: i32, height: i32 },
    ClearColor { red_bits: u32, green_bits: u32, blue_bits: u32, alpha_bits: u32 },
    Clear { mask: u32 },
    Flush,
    DrawArrays { mode: u32, first: u32, count: u32 },
    DrawArraysInstanced { mode: u32, first: u32, count: u32, instance_count: u32 },
    DrawElements { mode: u32, count: u32, element_kind: u32, offset: u64 },
    DrawElementsInstanced {
        mode: u32,
        count: u32,
        element_kind: u32,
        offset: u64,
        instance_count: u32,
    },
    Report { note: Note },
}

impl GlCmd {
    /// The mathematical shadow of this command.
    pub open spec fn model(self) -> CmdModel {
        match self {
            GlCmd::CreateShader { shader, stage } => CmdModel::CreateShader { shader, stage },
            GlCmd::ShaderSource { shader, source } => CmdModel::ShaderSource {
                shader,
                source: source@,
            },
            GlCmd::CompileShader { shader } => CmdModel::CompileShader { shader },
            GlCmd::DeleteShader { shader } => CmdModel::DeleteShader { shader },
            GlCmd::CreateProgram { program } => CmdModel::CreateProgram { program },
            GlCmd::AttachShader { program, shader } => CmdModel::AttachShader { program, shader },
            GlCmd::LinkProgram { program } => CmdModel::LinkProgram { program },
            GlCmd::DeleteProgram { program } => CmdModel::DeleteProgram { program },
            GlCmd::UniformBlockBinding { program, block_index, binding_point } =>
                CmdModel::UniformBlockBinding { program, block_index, binding_point },
            GlCmd::UseProgram { program } => CmdModel::UseProgram { program },
            GlCmd::TrySetSamplerUniform { program, name_fs, name_vs, unit } =>
                CmdModel::TrySetSamplerUniform {
                program,
                name_fs: name_fs@,
                name_vs: name_vs@,
                unit,
            },
            GlCmd::CreateVertexArray { vao } => CmdModel::CreateVertexArray { vao },
            GlCmd::BindVertexArray { vao } => CmdModel::BindVertexArray { vao },
            GlCmd::DeleteVertexArray { vao } => CmdModel::DeleteVertexArray { vao },
            GlCmd::EnableVertexAttribArray { location } => CmdModel::EnableVertexAttribArray {
                location,
            },
            GlCmd::VertexAttribPointer { location, components, data_kind, normalized, stride, offset }
                => CmdModel::VertexAttribPointer {
                location,
                components,
                data_kind,
                normalized,
                stride,
                offset,
            },
            GlCmd::CreateBuffer { buffer } => CmdModel::CreateBuffer { buffer },
            GlCmd::BindBuffer { target, buffer } => CmdModel::BindBuffer { target, buffer },
            GlCmd::BufferDataSize { target, size, usage_hint } => CmdModel::BufferDataSize {
                target,
                size,
                usage_hint,
            },
            GlCmd::BufferData { target, data, usage_hint } => CmdModel::BufferData {
                target,
                data: data@,
                usage_hint,
            },
            GlCmd::BufferSubData { target, offset, data } => CmdModel::BufferSubData {
                target,
                offset,
                data: data@,
            },
            GlCmd::BindBufferRange { target, binding_point, buffer, offset, size } =>
                CmdModel::BindBufferRange { target, binding_point, buffer, offset, size },
            GlCmd::DeleteBuffer { buffer } => CmdModel::DeleteBuffer { buffer },
            GlCmd::CreateTexture { texture } => CmdModel::CreateTexture { texture },
            GlCmd::BindTexture { target, texture } => CmdModel::BindTexture { target, texture },
            GlCmd::TexStorage2d { target, levels, internal_format, width, height } =>
                CmdModel::TexStorage2d { target, levels, internal_format, width, height },
            GlCmd::TexStorage3d { target, levels, internal_format, width, height, depth } =>
                CmdModel::TexStorage3d { target, levels, internal_format, width, height, depth },
            GlCmd::TexSubImage2d { target, level, x, y, width, height, format, data_kind, data } =>
                CmdModel::TexSubImage2d {
                target,
                level,
                x,
                y,
                width,
                height,
                format,
                data_kind,
                data: data@,
            },
            GlCmd::TexSubImage3d {
                target,
                level,
                x,
                y,
                z,
                width,
                height,
                depth,
                format,
                data_kind,
                data,
            } => CmdModel::TexSubImage3d {
                target,
                level,
                x,
                y,
                z,
                width,
                height,
                depth,
                format,
                data_kind,
                data: data@,
            },
            GlCmd::TexParameterI32 { target, parameter, value } => CmdModel::TexParameterI32 {
                target,
                parameter,
                value,
            },
            GlCmd::PixelStoreI32 { parameter, value } => CmdModel::PixelStoreI32 {
                parameter,
                value,
            },
            GlCmd::ActiveTexture { unit } => CmdModel::ActiveTexture { unit },
            GlCmd::DeleteTexture { texture } => CmdModel::DeleteTexture { texture },
            GlCmd::CreateSampler { sampler } => CmdModel::CreateSampler { sampler },
            GlCmd::BindSampler { unit, sampler } => CmdModel::BindSampler { unit, sampler },
            GlCmd::SamplerParameterI32 { sampler, parameter, value } =>
                CmdModel::SamplerParameterI32 { sampler, parameter, value },
            GlCmd::SamplerParameterF32Bits { sampler, parameter, value_bits } =>
                CmdModel::SamplerParameterF32Bits { sampler, parameter, value_bits },
            GlCmd::SamplerParameterAnisotropy { sampler, max_anisotropy } =>
                CmdModel::SamplerParameterAnisotropy { sampler, max_anisotropy },
            GlCmd::DeleteSampler { sampler } => CmdModel::DeleteSampler { sampler },
            GlCmd::CreateFramebuffer { framebuffer } => CmdModel::CreateFramebuffer { framebuffer },
            GlCmd::BindFramebuffer { target, framebuffer } => CmdModel::BindFramebuffer {
                target,
                framebuffer,
            },
            GlCmd::FramebufferTexture2d { target, attachment, tex_target, texture, level } =>
                CmdModel::FramebufferTexture2d { target, attachment, tex_target, texture, level },
            GlCmd::CreateRenderbuffer { renderbuffer } => CmdModel::CreateRenderbuffer {
                renderbuffer,
            },
            GlCmd::BindRenderbuffer { target, renderbuffer } => CmdModel::BindRenderbuffer {
                target,
                renderbuffer,
            },
            GlCmd::RenderbufferStorage { target, internal_format, width, height } =>
                CmdModel::RenderbufferStorage { target, internal_format, width, height },
            GlCmd::FramebufferRenderbuffer { target, attachment, rb_target, renderbuffer } =>
                CmdModel::FramebufferRenderbuffer { target, attachment, rb_target, renderbuffer },
            GlCmd::CheckFramebufferStatus { target } => CmdModel::CheckFramebufferStatus { target },
            GlCmd::Enable { capability } => CmdModel::Enable { capability },
            GlCmd::Disable { capability } => CmdModel::Disable { capability },
            GlCmd::DepthFunc { func } => CmdModel::DepthFunc { func },
            GlCmd::DepthMask { flag } => CmdModel::DepthMask { flag },
            GlCmd::DepthRange { near_bits, far_bits } => CmdModel::DepthRange {
                near_bits,
                far_bits,
            },
            GlCmd::BlendFuncSeparate { src_rgb, dst_rgb, src_alpha, dst_alpha } =>
                CmdModel::BlendFuncSeparate { src_rgb, dst_rgb, src_alpha, dst_alpha },
            GlCmd::BlendEquationSeparate { mode_rgb, mode_alpha } =>
                CmdModel::BlendEquationSeparate { mode_rgb, mode_alpha },
            GlCmd::Viewport { x, y, width, height } => CmdModel::Viewport { x, y, width, height },
            GlCmd::Scissor { x, y, width, height } => CmdModel::Scissor { x, y, width, height },
            GlCmd::ClearColor { red_bits, green_bits, blue_bits, alpha_bits } =>
                CmdModel::ClearColor { red_bits, green_bits, blue_bits, alpha_bits },
            GlCmd::Clear { mask } => CmdModel::Clear { mask },
            GlCmd::Flush => CmdModel::Flush,
            GlCmd::DrawArrays { mode, first, count } => CmdModel::DrawArrays { mode, first, count },
            GlCmd::DrawArraysInstanced { mode, first, count, instance_count } =>
                CmdModel::DrawArraysInstanced { mode, first, count, instance_count },
            GlCmd::DrawElements { mode, count, element_kind, offset } => CmdModel::DrawElements {
                mode,
                count,
                element_kind,
                offset,
            },
            GlCmd::DrawElementsInstanced { mode, count, element_kind, offset, instance_count } =>
                CmdModel::DrawElementsInstanced { mode, count, element_kind, offset, instance_count },
            GlCmd::Report { note } => CmdModel::Report { note },
        }
    }
}

/// The mathematical shadow of a whole command stream.
pub open spec fn models(s: Seq<GlCmd>) -> Seq<CmdModel> {
    s.map_values(|c: GlCmd| c.model())
}

} // verus!
