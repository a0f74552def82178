//! Resource values: buffers, textures, texture views and samplers.
//!
//! Each value pairs a plain handle with the metadata the emulation reads; it
//! does not own the underlying object. A texture without a handle stands for
//! the surface (the default framebuffer).

use vstd::prelude::*;

use crate::command::CmdModel;
use crate::command::GlCmd;
use crate::command::models;
use crate::format::TextureFormat;
use crate::handle::BufferHandle;
use crate::handle::SamplerHandle;
use crate::handle::TextureHandle;
use crate::types::TextureViewDimension;

verus! {

/// A buffer and the metadata the emulation reads.
#[derive(Clone, Copy, Debug, PartialEq, Eq, Structural)]
pub struct Buffer {
    pub handle: BufferHandle,
    /// Size in bytes.
    pub size: u32,
    /// Declarative usage flags.
    pub usage: u32,
}

impl Buffer {
    /// Size in bytes.
    pub fn size(&self) -> (r: u32)
        ensures
            r == self.size,
    {
        self.size
    }
}

/// A texture and the metadata the emulation reads. `handle` is `None` exactly
/// for the surface texture.
#[derive(Clone, Copy, Debug, PartialEq, Eq, Structural)]
pub struct Texture {
    /// The texture handle; `None` means the default framebuffer.
    pub handle: Option<TextureHandle>,
    pub width: u32,
    pub height: u32,
    pub depth_or_array_layers: u32,
    pub format: TextureFormat,
    /// Whether this stands for the surface (the default framebuffer).
    pub is_surface_texture: bool,
}

/// A view of a texture. `texture` is `None` exactly for a surface view.
#[derive(Clone, Copy, Debug, PartialEq, Eq, Structural)]
pub struct TextureView {
    /// The viewed texture's handle; `None` means the default framebuffer.
    pub texture: Option<TextureHandle>,
    pub format: TextureFormat,
    pub dimension: TextureViewDimension,
    pub base_mip_level: u32,
    pub mip_level_count: u32,
    pub base_array_layer: u32,
    pub array_layer_count: u32,
    /// Whether this views the surface (the default framebuffer).
    pub is_surface_texture: bool,
    /// Width of the viewed texture, for viewport sizing.
    pub width: u32,
    /// Height of the viewed texture, for viewport sizing.
    pub height: u32,
}

impl Texture {
    /// The width in pixels.
    pub fn width(&self) -> (r: u32)
        ensures
            r == self.width,
    {
        self.width
    }

    /// The height in pixels.
    pub fn height(&self) -> (r: u32)
        ensures
            r == self.height,
    {
        self.height
    }

    /// The depth, or the number of array layers.
    pub fn depth_or_array_layers(&self) -> (r: u32)
        ensures
            r == self.depth_or_array_layers,
    {
        self.depth_or_array_layers
    }

    /// A whole-texture view: two-dimensional, or an array view when the
    /// texture has more than one layer.
    pub fn create_view(&self) -> (r: TextureView)
        ensures
            r == (TextureView {
                texture: self.handle,
                format: self.format,
                dimension: if self.depth_or_array_layers > 1 {
                    TextureViewDimension::D2Array
                } else {
                    TextureViewDimension::D2
                },
                base_mip_level: 0u32,
                mip_level_count: 1u32,
                base_array_layer: 0u32,
                array_layer_count: self.depth_or_array_layers,
                is_surface_texture: self.is_surface_texture,
                width: self.width,
                height: self.height,
            }),
    {
        let dimension = if self.depth_or_array_layers > 1 {
            TextureViewDimension::D2Array
        } else {
            TextureViewDimension::D2
        };
        TextureView {
            texture: self.handle,
            format: self.format,
            dimension,
            base_mip_level: 0,
            mip_level_count: 1,
            base_array_layer: 0,
            array_layer_count: self.depth_or_array_layers,
            is_surface_texture: self.is_surface_texture,
            width: self.width,
            height: self.height,
        }
    }

    /// A view with every descriptor field chosen by the caller.
    pub fn create_view_with_descriptor(
        &self,
        format: TextureFormat,
        dimension: TextureViewDimension,
        base_mip_level: u32,
        mip_level_count: u32,
        base_array_layer: u32,
        array_layer_count: u32,
    ) -> (r: TextureView)
        ensures
            r == (TextureView {
                texture: self.handle,
                format,
                dimension,
                base_mip_level,
                mip_level_count,
                base_array_layer,
                array_layer_count,
                is_surface_texture: self.is_surface_texture,
                width: self.width,
                height: self.height,
            }),
    {
        TextureView {
            texture: self.handle,
            format,
            dimension,
            base_mip_level,
            mip_level_count,
            base_array_layer,
            array_layer_count,
            is_surface_texture: self.is_surface_texture,
            width: self.width,
            height: self.height,
        }
    }
}

impl TextureView {
    /// Whether this views the surface (the default framebuffer).
    pub fn is_surface(&self) -> (r: bool)
        ensures
            r == self.is_surface_texture,
    {
        self.is_surface_texture
    }

    /// The viewed texture's handle; `None` for a surface view.
    pub fn raw(&self) -> (r: Option<TextureHandle>)
        ensures
            r == self.texture,
    {
        self.texture
    }
}

/// A sampler object.
#[derive(Clone, Copy, Debug, PartialEq, Eq, Structural)]
pub struct Sampler {
    pub handle: SamplerHandle,
}

impl Buffer {
    /// The command that releases the buffer.
    pub fn destroy_commands(&self) -> (r: Vec<GlCmd>)
        ensures
            models(r@) == seq![CmdModel::DeleteBuffer { buffer: self.handle }],
    {
        let mut cmds: Vec<GlCmd> = Vec::new();
        cmds.push(GlCmd::DeleteBuffer { buffer: self.handle });
        proof {
            assert(models(cmds@) =~= seq![CmdModel::DeleteBuffer { buffer: self.handle }]);
        }
        cmds
    }
}

impl Texture {
    /// The command that releases the texture; the surface texture owns no
    /// object and releases nothing.
    pub fn destroy_commands(&self) -> (r: Vec<GlCmd>)
        ensures
            models(r@) == (match self.handle {
                Some(tex) => seq![CmdModel::DeleteTexture { texture: tex }],
                None => Seq::<CmdModel>::empty(),
            }),
    {
        let mut cmds: Vec<GlCmd> = Vec::new();
        match self.handle {
            Some(tex) => {
                cmds.push(GlCmd::DeleteTexture { texture: tex });
            },
            None => {},
        }
        proof {
            assert(models(cmds@) =~= (match self.handle {
                Some(tex) => seq![CmdModel::DeleteTexture { texture: tex }],
                None => Seq::<CmdModel>::empty(),
            }));
        }
        cmds
    }
}

impl Sampler {
    /// The command that releases the sampler.
    pub fn destroy_commands(&self) -> (r: Vec<GlCmd>)
        ensures
            models(r@) == seq![CmdModel::DeleteSampler { sampler: self.handle }],
    {
        let mut cmds: Vec<GlCmd> = Vec::new();
        cmds.push(GlCmd::DeleteSampler { sampler: self.handle });
        proof {
            assert(models(cmds@) =~= seq![CmdModel::DeleteSampler { sampler: self.handle }]);
        }
        cmds
    }
}

} // verus!
