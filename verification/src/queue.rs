//! Queue data uploads: writing bytes into buffers and textures.

use vstd::prelude::*;

use crate::command::CmdModel;
use crate::command::GlCmd;
use crate::command::models;
use crate::command::Note;
use crate::device::spec_buffer_target;
use crate::device::buffer_target_for_usage;
use crate::format::spec_texture_format_bytes_per_pixel;
use crate::format::spec_texture_format_gl_format;
use crate::format::spec_texture_format_gl_type;
use crate::gl;
use crate::resources::Buffer;
use crate::resources::Texture;

verus! {

/// The commands that write `data` into a buffer at `offset`: bind under the
/// target its usage selects, upload, unbind.
pub open spec fn spec_write_buffer_cmds(buffer: Buffer, offset: u32, data: Seq<u8>) -> Seq<
    CmdModel,
> {
    let target = spec_buffer_target(buffer.usage);
    seq![
        CmdModel::BindBuffer { target, buffer: Some(buffer.handle) },
        CmdModel::BufferSubData { target, offset, data },
        CmdModel::BindBuffer { target, buffer: None },
    ]
}

/// Write `data` into a buffer at `offset`, byte for byte.
pub fn write_buffer(buffer: &Buffer, offset: u32, data: Vec<u8>) -> (r: Vec<GlCmd>)
    ensures
        models(r@) == spec_write_buffer_cmds(*buffer, offset, data@),
{
    let target = buffer_target_for_usage(buffer.usage);
    let ghost data_view = data@;
    let mut cmds: Vec<GlCmd> = Vec::new();
    cmds.push(GlCmd::BindBuffer { target, buffer: Some(buffer.handle) });
    cmds.push(GlCmd::BufferSubData { target, offset, data });
    cmds.push(GlCmd::BindBuffer { target, buffer: None });
    proof {
        assert(models(cmds@) =~= spec_write_buffer_cmds(*buffer, offset, data_view));
    }
    cmds
}

/// The commands that write pixels into a texture region. A surface texture
/// cannot be written: only a report is emitted. A row pitch above the packed
/// row size sets the unpack row length around the upload. A texture with more
/// than one layer, or a write more than one layer deep, uploads as a
/// three-dimensional region under the array target; anything else as a
/// two-dimensional region.
pub open spec fn spec_write_texture_cmds(
    texture: Texture,
    mip_level: u32,
    origin_x: u32,
    origin_y: u32,
    origin_z: u32,
    data: Seq<u8>,
    bytes_per_row: u32,
    width: u32,
    height: u32,
    depth: u32,
) -> Seq<CmdModel> {
    match texture.handle {
        None => seq![CmdModel::Report { note: Note::SurfaceTextureNotWritable }],
        Some(tex) => {
            let pixel_size = spec_texture_format_bytes_per_pixel(texture.format);
            let padded = bytes_per_row > width * pixel_size;
            let row_length = bytes_per_row / pixel_size;
            let pre = if padded {
                seq![
                    CmdModel::PixelStoreI32 {
                        parameter: gl::UNPACK_ROW_LENGTH,
                        value: row_length,
                    },
                ]
            } else {
                Seq::<CmdModel>::empty()
            };
            let body = if texture.depth_or_array_layers > 1 || depth > 1 {
                seq![
                    CmdModel::BindTexture { target: gl::TEXTURE_2D_ARRAY, texture: Some(tex) },
                    CmdModel::TexSubImage3d {
                        target: gl::TEXTURE_2D_ARRAY,
                        level: mip_level,
                        x: origin_x,
                        y: origin_y,
                        z: origin_z,
                        width,
                        height,
                        depth,
                        format: spec_texture_format_gl_format(texture.format),
                        data_kind: spec_texture_format_gl_type(texture.format),
                        data,
                    },
                    CmdModel::BindTexture { target: gl::TEXTURE_2D_ARRAY, texture: None },
                ]
            } else {
                seq![
                    CmdModel::BindTexture { target: gl::TEXTURE_2D, texture: Some(tex) },
                    CmdModel::TexSubImage2d {
                        target: gl::TEXTURE_2D,
                        level: mip_level,
                        x: origin_x,
                        y: origin_y,
                        width,
                        height,
                        format: spec_texture_format_gl_format(texture.format),
                        data_kind: spec_texture_format_gl_type(texture.format),
                        data,
                    },
                    CmdModel::BindTexture { target: gl::TEXTURE_2D, texture: None },
                ]
            };
            let post = if padded {
                seq![CmdModel::PixelStoreI32 { parameter: gl::UNPACK_ROW_LENGTH, value: 0u32 }]
            } else {
                Seq::<CmdModel>::empty()
            };
            pre + body + post
        },
    }
}

/// Write pixels into a texture region. The rows-per-image argument is accepted
/// for interface parity and not used.
pub fn write_texture(
    texture: &Texture,
    mip_level: u32,
    origin_x: u32,
    origin_y: u32,
    origin_z: u32,
    data: Vec<u8>,
    bytes_per_row: u32,
    _rows_per_image: u32,
    width: u32,
    height: u32,
    depth: u32,
) -> (r: Vec<GlCmd>)
    ensures
        models(r@) == spec_write_texture_cmds(
            *texture,
            mip_level,
            origin_x,
            origin_y,
            origin_z,
            data@,
            bytes_per_row,
            width,
            height,
            depth,
        ),
{
    let ghost data_view = data@;
    let mut cmds: Vec<GlCmd> = Vec::new();
    let tex = match texture.handle {
        None => {
            cmds.push(GlCmd::Report { note: Note::SurfaceTextureNotWritable });
            proof {
                assert(models(cmds@) =~= spec_write_texture_cmds(
                    *texture,
                    mip_level,
                    origin_x,
                    origin_y,
                    origin_z,
                    data_view,
                    bytes_per_row,
                    width,
                    height,
                    depth,
                ));
            }
            return cmds;
        },
        Some(t) => t,
    };
    let pixel_size = texture.format.bytes_per_pixel();
    proof {
        assert(pixel_size <= 4);
        assert((width as u64) * (pixel_size as u64) <= (u32::MAX as u64) * 4) by (nonlinear_arith)
            requires
                width <= u32::MAX,
                pixel_size <= 4,
        ;
    }
    let padded = (bytes_per_row as u64) > (width as u64) * (pixel_size as u64);
    proof {
        assert(pixel_size >= 1);
    }
    if padded {
        let row_length = bytes_per_row / pixel_size;
        cmds.push(GlCmd::PixelStoreI32 { parameter: gl::UNPACK_ROW_LENGTH, value: row_length });
    }
    let gl_format = texture.format.gl_format();
    let gl_type = texture.format.gl_type();
    if texture.depth_or_array_layers > 1 || depth > 1 {
        cmds.push(GlCmd::BindTexture { target: gl::TEXTURE_2D_ARRAY, texture: Some(tex) });
        cmds.push(
            GlCmd::TexSubImage3d {
                target: gl::TEXTURE_2D_ARRAY,
                level: mip_level,
                x: origin_x,
                y: origin_y,
                z: origin_z,
                width,
                height,
                depth,
                format: gl_format,
                data_kind: gl_type,
                data,
            },
        );
        cmds.push(GlCmd::BindTexture { target: gl::TEXTURE_2D_ARRAY, texture: None });
    } else {
        cmds.push(GlCmd::BindTexture { target: gl::TEXTURE_2D, texture: Some(tex) });
        cmds.push(
            GlCmd::TexSubImage2d {
                target: gl::TEXTURE_2D,
                level: mip_level,
                x: origin_x,
                y: origin_y,
                width,
                height,
                format: gl_format,
                data_kind: gl_type,
                data,
            },
        );
        cmds.push(GlCmd::BindTexture { target: gl::TEXTURE_2D, texture: None });
    }
    if padded {
        cmds.push(GlCmd::PixelStoreI32 { parameter: gl::UNPACK_ROW_LENGTH, value: 0 });
    }
    proof {
        assert(models(cmds@) =~= spec_write_texture_cmds(
            *texture,
            mip_level,
            origin_x,
            origin_y,
            origin_z,
            data_view,
            bytes_per_row,
            width,
            height,
            depth,
        ));
    }
    cmds
}

} // verus!
