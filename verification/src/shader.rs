//! Shader modules: cross-compilation from the high-level shading language and
//! the coordinate-space post-processing.
//!
//! The cross-compiler turns one source text into one target-language text per
//! stage. Its output keeps the full coordinate adjustment (a Y flip and a
//! depth remap); this layer renders without the framebuffer blit that the flip
//! exists for, so the flip alone is undone by a verified text replacement and
//! the depth remap is kept.

use vstd::prelude::*;

use naga::back::glsl::Options;
use naga::back::glsl::PipelineOptions;
use naga::back::glsl::Version;
use naga::back::glsl::Writer;
use naga::front::wgsl::parse_str;
use naga::ShaderStage as NagaStage;
use naga::valid::Capabilities;
use naga::valid::ValidationFlags;
use naga::valid::Validator;

use crate::command::CmdModel;
use crate::command::GlCmd;
use crate::command::models;
use crate::device::DeviceState;
use crate::gl;
use crate::handle::ShaderHandle;
use crate::text::replace_all;
use crate::text::replace_all_str;
use crate::types::ShaderStage;
use crate::types::spec_stage_code;

verus! {

/// What the cross-compiler emits for a source text, stage code and entry
/// point: a function of these inputs alone.
pub uninterp spec fn glsl_of(wgsl: Seq<char>, stage: u32, entry: Seq<char>) -> Seq<char>;

/// Whether the cross-compiler accepts a source text for a stage code and entry
/// point: a function of these inputs alone.
pub uninterp spec fn wgsl_accepted(wgsl: Seq<char>, stage: u32, entry: Seq<char>) -> bool;

/// Relies on the standard debug formatting to describe a cross-compiler
/// error under a prefix naming the failed step.
#[verifier::external_body]
fn dbg_err<E: core::fmt::Debug>(prefix: &str, e: E) -> String {
    format!("{prefix}: {e:?}")
}

/// The cross-compiler's stage enum, declared opaquely so the conversion
/// wrapper below can return it.
#[verifier::external_type_specification]
#[verifier::external_body]
pub struct ExNagaStage(NagaStage);

/// Relies on the cross-compiler's stage enum: each variant of this library's
/// stage maps to its namesake, one arm each.
#[verifier::external_body]
fn stage_to_naga(stage: ShaderStage) -> NagaStage {
    match stage {
        ShaderStage::Vertex => NagaStage::Vertex,
        ShaderStage::Fragment => NagaStage::Fragment,
        ShaderStage::Compute => NagaStage::Compute,
    }
}

/// Relies on the cross-compiler pipeline of `naga`: `front::wgsl::parse_str`,
/// `valid::Validator::validate` and `back::glsl::Writer` with embedded
/// version 300 for the web. Whether the pipeline accepts the input, and what
/// it emits when it does, are functions of the source text, the stage and the
/// entry point alone.
#[verifier::external_body]
fn naga_transpile(wgsl: &str, stage: ShaderStage, entry_point: String) -> (r: Result<String, String>)
    ensures
        (r is Ok) == wgsl_accepted(wgsl@, spec_stage_code(stage), entry_point@),
        (match r {
            Ok(out) => out@ == glsl_of(wgsl@, spec_stage_code(stage), entry_point@),
            Err(_) => true,
        }),
{
    let shader_stage = stage_to_naga(stage);
    let module = parse_str(wgsl).map_err(|e| dbg_err("WGSL parse error", e))?;
    let info = Validator::new(ValidationFlags::all(), Capabilities::empty()).validate(&module).map_err(|e| dbg_err("Validation error", e))?;
    let options = Options { version: Version::Embedded { version: 300, is_webgl: true }, ..Default::default() };
    let pipeline_options = PipelineOptions { shader_stage, entry_point, multiview: None };
    let mut output = String::new();
    let mut writer = Writer::new(&mut output, &module, &info, &options, &pipeline_options, Default::default()).map_err(|e| dbg_err("GLSL writer creation error", e))?;
    writer.write().map_err(|e| dbg_err("GLSL write error", e))?;
    Ok(output)
}

/// The cross-compiler's own output for one stage, coordinate adjustment and
/// all; fails exactly when the cross-compiler rejects the input.
pub fn transpile_wgsl_to_glsl_raw(wgsl: &str, stage: ShaderStage, entry_point: &str) -> (r: Result<
    String,
    String,
>)
    ensures
        (r is Ok) == wgsl_accepted(wgsl@, spec_stage_code(stage), entry_point@),
        (match r {
            Ok(out) => out@ == glsl_of(wgsl@, spec_stage_code(stage), entry_point@),
            Err(_) => true,
        }),
{
    naga_transpile(wgsl, stage, entry_point.to_owned())
}

/// A vertex shader's text with the Y flip undone and the depth remap kept.
pub open spec fn spec_undo_y_flip(s: Seq<char>) -> Seq<char> {
    replace_all(
        s,
        "gl_Position.yz = vec2(-gl_Position.y, gl_Position.z * 2.0 - gl_Position.w);"@,
        "gl_Position.z = gl_Position.z * 2.0 - gl_Position.w;"@,
    )
}

/// Undo the Y flip in the cross-compiler's coordinate adjustment while keeping
/// the depth remap: the combined assignment to the Y and Z position components
/// becomes an assignment to Z alone.
pub fn undo_y_flip(glsl_source: &str) -> (r: String)
    ensures
        r@ == spec_undo_y_flip(glsl_source@),
{
    proof {
        reveal_strlit("gl_Position.yz = vec2(-gl_Position.y, gl_Position.z * 2.0 - gl_Position.w);");
    }
    replace_all_str(
        glsl_source,
        "gl_Position.yz = vec2(-gl_Position.y, gl_Position.z * 2.0 - gl_Position.w);",
        "gl_Position.z = gl_Position.z * 2.0 - gl_Position.w;",
    )
}

/// What this layer compiles for one stage: the cross-compiler's output, with
/// the Y flip undone for the vertex stage.
pub open spec fn spec_stage_glsl(wgsl: Seq<char>, stage: ShaderStage, entry: Seq<char>) -> Seq<
    char,
> {
    if stage == ShaderStage::Vertex {
        spec_undo_y_flip(glsl_of(wgsl, spec_stage_code(stage), entry))
    } else {
        glsl_of(wgsl, spec_stage_code(stage), entry)
    }
}

/// Cross-compile one stage, undoing the Y flip for the vertex stage; fails
/// exactly when the cross-compiler rejects the input.
pub fn transpile_wgsl_to_glsl(wgsl: &str, stage: ShaderStage, entry_point: &str) -> (r: Result<
    String,
    String,
>)
    ensures
        (r is Ok) == wgsl_accepted(wgsl@, spec_stage_code(stage), entry_point@),
        (match r {
            Ok(out) => out@ == spec_stage_glsl(wgsl@, stage, entry_point@),
            Err(_) => true,
        }),
{
    let raw = naga_transpile(wgsl, stage, entry_point.to_owned())?;
    match stage {
        ShaderStage::Vertex => Ok(undo_y_flip(raw.as_str())),
        _ => Ok(raw),
    }
}

/// A compiled shader module: one vertex shader and one fragment shader from a
/// single source text.
#[derive(Clone, Debug)]
pub struct ShaderModule {
    pub vertex_shader: Option<ShaderHandle>,
    pub fragment_shader: Option<ShaderHandle>,
    /// The original source, kept for diagnosis.
    pub wgsl_source: String,
}

/// The commands that create and compile one shader of the given stage kind
/// from the given text.
pub open spec fn spec_compile_shader_cmds(
    shader: ShaderHandle,
    stage_gl: u32,
    source: Seq<char>,
) -> Seq<CmdModel> {
    seq![
        CmdModel::CreateShader { shader, stage: stage_gl },
        CmdModel::ShaderSource { shader, source },
        CmdModel::CompileShader { shader },
    ]
}

/// The commands that build a whole shader module: compile the vertex stage,
/// then the fragment stage.
pub open spec fn spec_shader_module_cmds(
    vs: ShaderHandle,
    fs: ShaderHandle,
    wgsl: Seq<char>,
    vertex_entry: Seq<char>,
    fragment_entry: Seq<char>,
) -> Seq<CmdModel> {
    spec_compile_shader_cmds(
        vs,
        gl::VERTEX_SHADER,
        spec_stage_glsl(wgsl, ShaderStage::Vertex, vertex_entry),
    ) + spec_compile_shader_cmds(
        fs,
        gl::FRAGMENT_SHADER,
        spec_stage_glsl(wgsl, ShaderStage::Fragment, fragment_entry),
    )
}

/// Build a shader module from one source text: cross-compile the vertex and
/// fragment stages and emit the commands that create and compile both
/// shaders. The call succeeds exactly when the cross-compiler accepts both
/// stages and two handles can still be issued; a failure aborts with a
/// message and leaves the device unchanged. Whether the target-language
/// compilation succeeded is reported by the context when the shell executes
/// the commands.
pub fn create_shader_module(
    dev: &mut DeviceState,
    wgsl_code: &str,
    vertex_entry_point: &str,
    fragment_entry_point: &str,
) -> (r: Result<(ShaderModule, Vec<GlCmd>), String>)
    requires
        old(dev).wf(),
    ensures
        final(dev).wf(),
        (r is Ok) == (wgsl_accepted(
            wgsl_code@,
            spec_stage_code(ShaderStage::Vertex),
            vertex_entry_point@,
        ) && wgsl_accepted(
            wgsl_code@,
            spec_stage_code(ShaderStage::Fragment),
            fragment_entry_point@,
        ) && old(dev).alloc.can_issue(2)),
        (match r {
            Ok(p) => {
                let vs = ShaderHandle(old(dev).alloc.next);
                let fs = ShaderHandle((old(dev).alloc.next + 1) as u32);
                &&& old(dev).alloc.can_issue(2)
                &&& p.0.vertex_shader == Some(vs)
                &&& p.0.fragment_shader == Some(fs)
                &&& p.0.wgsl_source@ == wgsl_code@
                &&& *final(dev) == (crate::device::DeviceState {
                    alloc: crate::handle::HandleAllocator {
                        next: (old(dev).alloc.next + 2) as u32,
                    },
                    stats: crate::device::ObjectStats {
                        shader_modules: crate::device::spec_inc(old(dev).stats.shader_modules),
                        ..old(dev).stats
                    },
                    ..*old(dev)
                })
                &&& models(p.1@) == spec_shader_module_cmds(
                    vs,
                    fs,
                    wgsl_code@,
                    vertex_entry_point@,
                    fragment_entry_point@,
                )
            },
            Err(_) => *final(dev) == *old(dev),
        }),
{
    let vertex_glsl = match transpile_wgsl_to_glsl(wgsl_code, ShaderStage::Vertex, vertex_entry_point) {
        Ok(v) => v,
        Err(e) => {
            return Err(e);
        },
    };
    let fragment_glsl = match transpile_wgsl_to_glsl(
        wgsl_code,
        ShaderStage::Fragment,
        fragment_entry_point,
    ) {
        Ok(v) => v,
        Err(e) => {
            return Err(e);
        },
    };
    if dev.alloc.next >= u32::MAX - 1 {
        return Err("the handle space is exhausted".to_owned());
    }
    let (vs, fs) = dev.issue_two_shader_handles();
    let mut cmds: Vec<GlCmd> = Vec::new();
    cmds.push(GlCmd::CreateShader { shader: vs, stage: gl::VERTEX_SHADER });
    cmds.push(GlCmd::ShaderSource { shader: vs, source: vertex_glsl });
    cmds.push(GlCmd::CompileShader { shader: vs });
    cmds.push(GlCmd::CreateShader { shader: fs, stage: gl::FRAGMENT_SHADER });
    cmds.push(GlCmd::ShaderSource { shader: fs, source: fragment_glsl });
    cmds.push(GlCmd::CompileShader { shader: fs });
    proof {
        assert(models(cmds@) =~= spec_shader_module_cmds(
            vs,
            fs,
            wgsl_code@,
            vertex_entry_point@,
            fragment_entry_point@,
        ));
    }
    let module = ShaderModule {
        vertex_shader: Some(vs),
        fragment_shader: Some(fs),
        wgsl_source: wgsl_code.to_owned(),
    };
    Ok((module, cmds))
}

/// The commands that release a shader module's shaders.
pub fn destroy_shader_module_commands(module: &ShaderModule) -> (r: Vec<GlCmd>)
    ensures
        models(r@) == {
            let head = match module.vertex_shader {
                Some(vs) => seq![CmdModel::DeleteShader { shader: vs }],
                None => Seq::<CmdModel>::empty(),
            };
            let tail = match module.fragment_shader {
                Some(fs) => seq![CmdModel::DeleteShader { shader: fs }],
                None => Seq::<CmdModel>::empty(),
            };
            head + tail
        },
{
    let mut cmds: Vec<GlCmd> = Vec::new();
    match module.vertex_shader {
        Some(vs) => {
            cmds.push(GlCmd::DeleteShader { shader: vs });
        },
        None => {},
    }
    match module.fragment_shader {
        Some(fs) => {
            cmds.push(GlCmd::DeleteShader { shader: fs });
        },
        None => {},
    }
    proof {
        assert(models(cmds@) =~= {
            let head = match module.vertex_shader {
                Some(vs) => seq![CmdModel::DeleteShader { shader: vs }],
                None => Seq::<CmdModel>::empty(),
            };
            let tail = match module.fragment_shader {
                Some(fs) => seq![CmdModel::DeleteShader { shader: fs }],
                None => Seq::<CmdModel>::empty(),
            };
            head + tail
        });
    }
    cmds
}

} // verus!
