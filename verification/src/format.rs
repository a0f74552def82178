//! Vertex and texture formats and their immediate-mode translations.

use vstd::prelude::*;

use crate::gl;

verus! {

/// Vertex attribute format of the declarative API.
#[derive(Clone, Copy, Debug, PartialEq, Eq, Structural)]
pub enum VertexFormat {
    Uint8x2,
    Uint8x4,
    Sint8x2,
    Sint8x4,
    Unorm8x2,
    Unorm8x4,
    Snorm8x2,
    Snorm8x4,
    Uint16x2,
    Uint16x4,
    Sint16x2,
    Sint16x4,
    Unorm16x2,
    Unorm16x4,
    Snorm16x2,
    Snorm16x4,
    Float16x2,
    Float16x4,
    Float32,
    Float32x2,
    Float32x3,
    Float32x4,
    Uint32,
    Uint32x2,
    Uint32x3,
    Uint32x4,
    Sint32,
    Sint32x2,
    Sint32x3,
    Sint32x4,
}

/// The size in bytes of one attribute of this format.
pub open spec fn spec_vertex_format_size(f: VertexFormat) -> u32 {
    match f {
        VertexFormat::Uint8x2 | VertexFormat::Sint8x2 | VertexFormat::Unorm8x2
            | VertexFormat::Snorm8x2 => 2,
        VertexFormat::Uint8x4 | VertexFormat::Sint8x4 | VertexFormat::Unorm8x4
            | VertexFormat::Snorm8x4 => 4,
        VertexFormat::Uint16x2 | VertexFormat::Sint16x2 | VertexFormat::Unorm16x2
            | VertexFormat::Snorm16x2 | VertexFormat::Float16x2 => 4,
        VertexFormat::Uint16x4 | VertexFormat::Sint16x4 | VertexFormat::Unorm16x4
            | VertexFormat::Snorm16x4 | VertexFormat::Float16x4 => 8,
        VertexFormat::Float32 | VertexFormat::Uint32 | VertexFormat::Sint32 => 4,
        VertexFormat::Float32x2 | VertexFormat::Uint32x2 | VertexFormat::Sint32x2 => 8,
        VertexFormat::Float32x3 | VertexFormat::Uint32x3 | VertexFormat::Sint32x3 => 12,
        VertexFormat::Float32x4 | VertexFormat::Uint32x4 | VertexFormat::Sint32x4 => 16,
    }
}

/// How many scalar components the format has.
pub open spec fn spec_vertex_format_components(f: VertexFormat) -> u32 {
    match f {
        VertexFormat::Float32 | VertexFormat::Uint32 | VertexFormat::Sint32 => 1,
        VertexFormat::Uint8x2 | VertexFormat::Sint8x2 | VertexFormat::Unorm8x2
            | VertexFormat::Snorm8x2 | VertexFormat::Uint16x2 | VertexFormat::Sint16x2
            | VertexFormat::Unorm16x2 | VertexFormat::Snorm16x2 | VertexFormat::Float16x2
            | VertexFormat::Float32x2 | VertexFormat::Uint32x2 | VertexFormat::Sint32x2 => 2,
        VertexFormat::Float32x3 | VertexFormat::Uint32x3 | VertexFormat::Sint32x3 => 3,
        VertexFormat::Uint8x4 | VertexFormat::Sint8x4 | VertexFormat::Unorm8x4
            | VertexFormat::Snorm8x4 | VertexFormat::Uint16x4 | VertexFormat::Sint16x4
            | VertexFormat::Unorm16x4 | VertexFormat::Snorm16x4 | VertexFormat::Float16x4
            | VertexFormat::Float32x4 | VertexFormat::Uint32x4 | VertexFormat::Sint32x4 => 4,
    }
}

/// The immediate-mode scalar kind of the format.
pub open spec fn spec_vertex_format_gl_type(f: VertexFormat) -> u32 {
    match f {
        VertexFormat::Uint8x2 | VertexFormat::Uint8x4 | VertexFormat::Unorm8x2
            | VertexFormat::Unorm8x4 => gl::UNSIGNED_BYTE,
        VertexFormat::Sint8x2 | VertexFormat::Sint8x4 | VertexFormat::Snorm8x2
            | VertexFormat::Snorm8x4 => gl::BYTE,
        VertexFormat::Uint16x2 | VertexFormat::Uint16x4 | VertexFormat::Unorm16x2
            | VertexFormat::Unorm16x4 => gl::UNSIGNED_SHORT,
        VertexFormat::Sint16x2 | VertexFormat::Sint16x4 | VertexFormat::Snorm16x2
            | VertexFormat::Snorm16x4 => gl::SHORT,
        VertexFormat::Float16x2 | VertexFormat::Float16x4 => gl::HALF_FLOAT,
        VertexFormat::Float32 | VertexFormat::Float32x2 | VertexFormat::Float32x3
            | VertexFormat::Float32x4 => gl::FLOAT,
        VertexFormat::Uint32 | VertexFormat::Uint32x2 | VertexFormat::Uint32x3
            | VertexFormat::Uint32x4 => gl::UNSIGNED_INT,
        VertexFormat::Sint32 | VertexFormat::Sint32x2 | VertexFormat::Sint32x3
            | VertexFormat::Sint32x4 => gl::INT,
    }
}

/// Whether the format is normalized when configured as an attribute pointer.
pub open spec fn spec_vertex_format_normalized(f: VertexFormat) -> bool {
    match f {
        VertexFormat::Unorm8x2 | VertexFormat::Unorm8x4 | VertexFormat::Snorm8x2
            | VertexFormat::Snorm8x4 | VertexFormat::Unorm16x2 | VertexFormat::Unorm16x4
            | VertexFormat::Snorm16x2 | VertexFormat::Snorm16x4 => true,
        _ => false,
    }
}

/// Whether the format needs the integer attribute-pointer call.
pub open spec fn spec_vertex_format_is_integer(f: VertexFormat) -> bool {
    match f {
        VertexFormat::Uint8x2 | VertexFormat::Uint8x4 | VertexFormat::Sint8x2
            | VertexFormat::Sint8x4 | VertexFormat::Uint16x2 | VertexFormat::Uint16x4
            | VertexFormat::Sint16x2 | VertexFormat::Sint16x4 | VertexFormat::Uint32
            | VertexFormat::Uint32x2 | VertexFormat::Uint32x3 | VertexFormat::Uint32x4
            | VertexFormat::Sint32 | VertexFormat::Sint32x2 | VertexFormat::Sint32x3
            | VertexFormat::Sint32x4 => true,
        _ => false,
    }
}

impl VertexFormat {
    /// The size in bytes of one attribute of this format.
    pub fn size(self) -> (r: u32)
        ensures
            r == spec_vertex_format_size(self),
    {
        match self {
            VertexFormat::Uint8x2 | VertexFormat::Sint8x2 | VertexFormat::Unorm8x2
                | VertexFormat::Snorm8x2 => 2,
            VertexFormat::Uint8x4 | VertexFormat::Sint8x4 | VertexFormat::Unorm8x4
                | VertexFormat::Snorm8x4 => 4,
            VertexFormat::Uint16x2 | VertexFormat::Sint16x2 | VertexFormat::Unorm16x2
                | VertexFormat::Snorm16x2 | VertexFormat::Float16x2 => 4,
            VertexFormat::Uint16x4 | VertexFormat::Sint16x4 | VertexFormat::Unorm16x4
                | VertexFormat::Snorm16x4 | VertexFormat::Float16x4 => 8,
            VertexFormat::Float32 | VertexFormat::Uint32 | VertexFormat::Sint32 => 4,
            VertexFormat::Float32x2 | VertexFormat::Uint32x2 | VertexFormat::Sint32x2 => 8,
            VertexFormat::Float32x3 | VertexFormat::Uint32x3 | VertexFormat::Sint32x3 => 12,
            VertexFormat::Float32x4 | VertexFormat::Uint32x4 | VertexFormat::Sint32x4 => 16,
        }
    }

    /// How many scalar components the format has.
    pub fn components(self) -> (r: u32)
        ensures
            r == spec_vertex_format_components(self),
    {
        match self {
            VertexFormat::Float32 | VertexFormat::Uint32 | VertexFormat::Sint32 => 1,
            VertexFormat::Uint8x2 | VertexFormat::Sint8x2 | VertexFormat::Unorm8x2
                | VertexFormat::Snorm8x2 | VertexFormat::Uint16x2 | VertexFormat::Sint16x2
                | VertexFormat::Unorm16x2 | VertexFormat::Snorm16x2 | VertexFormat::Float16x2
                | VertexFormat::Float32x2 | VertexFormat::Uint32x2 | VertexFormat::Sint32x2 => 2,
            VertexFormat::Float32x3 | VertexFormat::Uint32x3 | VertexFormat::Sint32x3 => 3,
            VertexFormat::Uint8x4 | VertexFormat::Sint8x4 | VertexFormat::Unorm8x4
                | VertexFormat::Snorm8x4 | VertexFormat::Uint16x4 | VertexFormat::Sint16x4
                | VertexFormat::Unorm16x4 | VertexFormat::Snorm16x4 | VertexFormat::Float16x4
                | VertexFormat::Float32x4 | VertexFormat::Uint32x4 | VertexFormat::Sint32x4 => 4,
        }
    }

    /// The immediate-mode scalar kind of the format.
    pub fn gl_type(self) -> (r: u32)
        ensures
            r == spec_vertex_format_gl_type(self),
    {
        match self {
            VertexFormat::Uint8x2 | VertexFormat::Uint8x4 | VertexFormat::Unorm8x2
                | VertexFormat::Unorm8x4 => gl::UNSIGNED_BYTE,
            VertexFormat::Sint8x2 | VertexFormat::Sint8x4 | VertexFormat::Snorm8x2
                | VertexFormat::Snorm8x4 => gl::BYTE,
            VertexFormat::Uint16x2 | VertexFormat::Uint16x4 | VertexFormat::Unorm16x2
                | VertexFormat::Unorm16x4 => gl::UNSIGNED_SHORT,
            VertexFormat::Sint16x2 | VertexFormat::Sint16x4 | VertexFormat::Snorm16x2
                | VertexFormat::Snorm16x4 => gl::SHORT,
            VertexFormat::Float16x2 | VertexFormat::Float16x4 => gl::HALF_FLOAT,
            VertexFormat::Float32 | VertexFormat::Float32x2 | VertexFormat::Float32x3
                | VertexFormat::Float32x4 => gl::FLOAT,
            VertexFormat::Uint32 | VertexFormat::Uint32x2 | VertexFormat::Uint32x3
                | VertexFormat::Uint32x4 => gl::UNSIGNED_INT,
            VertexFormat::Sint32 | VertexFormat::Sint32x2 | VertexFormat::Sint32x3
                | VertexFormat::Sint32x4 => gl::INT,
        }
    }

    /// Whether the format is normalized when configured as an attribute
    /// pointer.
    pub fn normalized(self) -> (r: bool)
        ensures
            r == spec_vertex_format_normalized(self),
    {
        match self {
            VertexFormat::Unorm8x2 | VertexFormat::Unorm8x4 | VertexFormat::Snorm8x2
                | VertexFormat::Snorm8x4 | VertexFormat::Unorm16x2 | VertexFormat::Unorm16x4
                | VertexFormat::Snorm16x2 | VertexFormat::Snorm16x4 => true,
            _ => false,
        }
    }

    /// Whether the format needs the integer attribute-pointer call.
    pub fn is_integer(self) -> (r: bool)
        ensures
            r == spec_vertex_format_is_integer(self),
    {
        match self {
            VertexFormat::Uint8x2 | VertexFormat::Uint8x4 | VertexFormat::Sint8x2
                | VertexFormat::Sint8x4 | VertexFormat::Uint16x2 | VertexFormat::Uint16x4
                | VertexFormat::Sint16x2 | VertexFormat::Sint16x4 | VertexFormat::Uint32
                | VertexFormat::Uint32x2 | VertexFormat::Uint32x3 | VertexFormat::Uint32x4
                | VertexFormat::Sint32 | VertexFormat::Sint32x2 | VertexFormat::Sint32x3
                | VertexFormat::Sint32x4 => true,
            _ => false,
        }
    }
}

/// Texture format of the declarative API, the subset the emulation supports.
#[derive(Clone, Copy, Debug, PartialEq, Eq, Structural)]
pub enum TextureFormat {
    R8Unorm,
    R8Snorm,
    R8Uint,
    R8Sint,
    Rg8Unorm,
    Rg8Snorm,
    Rg8Uint,
    Rg8Sint,
    Rgba8Unorm,
    Rgba8UnormSrgb,
    Rgba8Snorm,
    Rgba8Uint,
    Rgba8Sint,
    Bgra8Unorm,
    Bgra8UnormSrgb,
    Depth16Unorm,
    Depth24Plus,
    Depth24PlusStencil8,
    Depth32Float,
}

/// The immediate-mode sized internal format. The blue-green-swapped formats
/// map to the plain four-channel formats: the target has no swapped storage.
pub open spec fn spec_texture_format_internal(f: TextureFormat) -> u32 {
    match f {
        TextureFormat::R8Unorm => gl::R8,
        TextureFormat::R8Snorm => gl::R8_SNORM,
        TextureFormat::R8Uint => gl::R8UI,
        TextureFormat::R8Sint => gl::R8I,
        TextureFormat::Rg8Unorm => gl::RG8,
        TextureFormat::Rg8Snorm => gl::RG8_SNORM,
        TextureFormat::Rg8Uint => gl::RG8UI,
        TextureFormat::Rg8Sint => gl::RG8I,
        TextureFormat::Rgba8Unorm => gl::RGBA8,
        TextureFormat::Rgba8UnormSrgb => gl::SRGB8_ALPHA8,
        TextureFormat::Rgba8Snorm => gl::RGBA8_SNORM,
        TextureFormat::Rgba8Uint => gl::RGBA8UI,
        TextureFormat::Rgba8Sint => gl::RGBA8I,
        TextureFormat::Bgra8Unorm => gl::RGBA8,
        TextureFormat::Bgra8UnormSrgb => gl::SRGB8_ALPHA8,
        TextureFormat::Depth16Unorm => gl::DEPTH_COMPONENT16,
        TextureFormat::Depth24Plus => gl::DEPTH_COMPONENT24,
        TextureFormat::Depth24PlusStencil8 => gl::DEPTH24_STENCIL8,
        TextureFormat::Depth32Float => gl::DEPTH_COMPONENT32F,
    }
}

/// The immediate-mode pixel format for uploads.
pub open spec fn spec_texture_format_gl_format(f: TextureFormat) -> u32 {
    match f {
        TextureFormat::R8Unorm | TextureFormat::R8Snorm => gl::RED,
        TextureFormat::R8Uint | TextureFormat::R8Sint => gl::RED_INTEGER,
        TextureFormat::Rg8Unorm | TextureFormat::Rg8Snorm => gl::RG,
        TextureFormat::Rg8Uint | TextureFormat::Rg8Sint => gl::RG_INTEGER,
        TextureFormat::Rgba8Unorm | TextureFormat::Rgba8UnormSrgb | TextureFormat::Rgba8Snorm
            | TextureFormat::Bgra8Unorm | TextureFormat::Bgra8UnormSrgb => gl::RGBA,
        TextureFormat::Rgba8Uint | TextureFormat::Rgba8Sint => gl::RGBA_INTEGER,
        TextureFormat::Depth16Unorm | TextureFormat::Depth24Plus | TextureFormat::Depth32Float =>
            gl::DEPTH_COMPONENT,
        TextureFormat::Depth24PlusStencil8 => gl::DEPTH_STENCIL,
    }
}

/// The immediate-mode pixel scalar kind for uploads.
pub open spec fn spec_texture_format_gl_type(f: TextureFormat) -> u32 {
    match f {
        TextureFormat::R8Unorm | TextureFormat::Rg8Unorm | TextureFormat::Rgba8Unorm
            | TextureFormat::Rgba8UnormSrgb | TextureFormat::Bgra8Unorm
            | TextureFormat::Bgra8UnormSrgb | TextureFormat::R8Uint | TextureFormat::Rg8Uint
            | TextureFormat::Rgba8Uint => gl::UNSIGNED_BYTE,
        TextureFormat::R8Snorm | TextureFormat::Rg8Snorm | TextureFormat::Rgba8Snorm
            | TextureFormat::R8Sint | TextureFormat::Rg8Sint | TextureFormat::Rgba8Sint => gl::BYTE,
        TextureFormat::Depth16Unorm => gl::UNSIGNED_SHORT,
        TextureFormat::Depth24Plus => gl::UNSIGNED_INT,
        TextureFormat::Depth24PlusStencil8 => gl::UNSIGNED_INT_24_8,
        TextureFormat::Depth32Float => gl::FLOAT,
    }
}

/// Whether the format holds depth or stencil data.
pub open spec fn spec_texture_format_is_depth_stencil(f: TextureFormat) -> bool {
    match f {
        TextureFormat::Depth16Unorm | TextureFormat::Depth24Plus
            | TextureFormat::Depth24PlusStencil8 | TextureFormat::Depth32Float => true,
        _ => false,
    }
}

/// The size in bytes of one pixel as uploads see it: one for the single-channel
/// byte formats, two for the two-channel byte formats, four for the rest.
pub open spec fn spec_texture_format_bytes_per_pixel(f: TextureFormat) -> u32 {
    match f {
        TextureFormat::R8Unorm | TextureFormat::R8Snorm | TextureFormat::R8Uint
            | TextureFormat::R8Sint => 1,
        TextureFormat::Rg8Unorm | TextureFormat::Rg8Snorm | TextureFormat::Rg8Uint
            | TextureFormat::Rg8Sint => 2,
        _ => 4,
    }
}

impl TextureFormat {
    /// The immediate-mode sized internal format.
    pub fn gl_internal_format(self) -> (r: u32)
        ensures
            r == spec_texture_format_internal(self),
    {
        match self {
            TextureFormat::R8Unorm => gl::R8,
            TextureFormat::R8Snorm => gl::R8_SNORM,
            TextureFormat::R8Uint => gl::R8UI,
            TextureFormat::R8Sint => gl::R8I,
            TextureFormat::Rg8Unorm => gl::RG8,
            TextureFormat::Rg8Snorm => gl::RG8_SNORM,
            TextureFormat::Rg8Uint => gl::RG8UI,
            TextureFormat::Rg8Sint => gl::RG8I,
            TextureFormat::Rgba8Unorm => gl::RGBA8,
            TextureFormat::Rgba8UnormSrgb => gl::SRGB8_ALPHA8,
            TextureFormat::Rgba8Snorm => gl::RGBA8_SNORM,
            TextureFormat::Rgba8Uint => gl::RGBA8UI,
            TextureFormat::Rgba8Sint => gl::RGBA8I,
            TextureFormat::Bgra8Unorm => gl::RGBA8,
            TextureFormat::Bgra8UnormSrgb => gl::SRGB8_ALPHA8,
            TextureFormat::Depth16Unorm => gl::DEPTH_COMPONENT16,
            TextureFormat::Depth24Plus => gl::DEPTH_COMPONENT24,
            TextureFormat::Depth24PlusStencil8 => gl::DEPTH24_STENCIL8,
            TextureFormat::Depth32Float => gl::DEPTH_COMPONENT32F,
        }
    }

    /// The immediate-mode pixel format for uploads.
    pub fn gl_format(self) -> (r: u32)
        ensures
            r == spec_texture_format_gl_format(self),
    {
        match self {
            TextureFormat::R8Unorm | TextureFormat::R8Snorm => gl::RED,
            TextureFormat::R8Uint | TextureFormat::R8Sint => gl::RED_INTEGER,
            TextureFormat::Rg8Unorm | TextureFormat::Rg8Snorm => gl::RG,
            TextureFormat::Rg8Uint | TextureFormat::Rg8Sint => gl::RG_INTEGER,
            TextureFormat::Rgba8Unorm | TextureFormat::Rgba8UnormSrgb | TextureFormat::Rgba8Snorm
                | TextureFormat::Bgra8Unorm | TextureFormat::Bgra8UnormSrgb => gl::RGBA,
            TextureFormat::Rgba8Uint | TextureFormat::Rgba8Sint => gl::RGBA_INTEGER,
            TextureFormat::Depth16Unorm | TextureFormat::Depth24Plus
                | TextureFormat::Depth32Float => gl::DEPTH_COMPONENT,
            TextureFormat::Depth24PlusStencil8 => gl::DEPTH_STENCIL,
        }
    }

    /// The immediate-mode pixel scalar kind for uploads.
    pub fn gl_type(self) -> (r: u32)
        ensures
            r == spec_texture_format_gl_type(self),
    {
        match self {
            TextureFormat::R8Unorm | TextureFormat::Rg8Unorm | TextureFormat::Rgba8Unorm
                | TextureFormat::Rgba8UnormSrgb | TextureFormat::Bgra8Unorm
                | TextureFormat::Bgra8UnormSrgb | TextureFormat::R8Uint | TextureFormat::Rg8Uint
                | TextureFormat::Rgba8Uint => gl::UNSIGNED_BYTE,
            TextureFormat::R8Snorm | TextureFormat::Rg8Snorm | TextureFormat::Rgba8Snorm
                | TextureFormat::R8Sint | TextureFormat::Rg8Sint | TextureFormat::Rgba8Sint =>
                gl::BYTE,
            TextureFormat::Depth16Unorm => gl::UNSIGNED_SHORT,
            TextureFormat::Depth24Plus => gl::UNSIGNED_INT,
            TextureFormat::Depth24PlusStencil8 => gl::UNSIGNED_INT_24_8,
            TextureFormat::Depth32Float => gl::FLOAT,
        }
    }

    /// Whether the format holds depth or stencil data.
    pub fn is_depth_stencil(self) -> (r: bool)
        ensures
            r == spec_texture_format_is_depth_stencil(self),
    {
        match self {
            TextureFormat::Depth16Unorm | TextureFormat::Depth24Plus
                | TextureFormat::Depth24PlusStencil8 | TextureFormat::Depth32Float => true,
            _ => false,
        }
    }

    /// The size in bytes of one pixel as uploads see it.
    pub fn bytes_per_pixel(self) -> (r: u32)
        ensures
            r == spec_texture_format_bytes_per_pixel(self),
    {
        match self {
            TextureFormat::R8Unorm | TextureFormat::R8Snorm | TextureFormat::R8Uint
                | TextureFormat::R8Sint => 1,
            TextureFormat::Rg8Unorm | TextureFormat::Rg8Snorm | TextureFormat::Rg8Uint
                | TextureFormat::Rg8Sint => 2,
            _ => 4,
        }
    }
}

impl Default for TextureFormat {
    /// The default format is the plain four-channel byte format.
    fn default() -> (r: Self)
        ensures
            r == TextureFormat::Rgba8Unorm,
    {
        TextureFormat::Rgba8Unorm
    }
}

} // verus!
