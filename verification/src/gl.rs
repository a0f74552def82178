//! Numeric constants of the immediate-mode graphics API.
//!
//! The command stream produced by this library carries the API's own `GLenum`
//! values, so the shell that executes it can hand each value to the context
//! unchanged. The values are fixed by the API's specification.

use vstd::prelude::*;

verus! {

// Buffer targets
pub const ARRAY_BUFFER: u32 = 0x8892;
pub const ELEMENT_ARRAY_BUFFER: u32 = 0x8893;
pub const UNIFORM_BUFFER: u32 = 0x8A11;

// Buffer usage hints
pub const STATIC_DRAW: u32 = 0x88E4;
pub const DYNAMIC_DRAW: u32 = 0x88E8;

// Primitive topologies
pub const POINTS: u32 = 0x0000;
pub const LINES: u32 = 0x0001;
pub const LINE_STRIP: u32 = 0x0003;
pub const TRIANGLES: u32 = 0x0004;
pub const TRIANGLE_STRIP: u32 = 0x0005;

// Scalar kinds for vertex attributes and index/pixel data
pub const BYTE: u32 = 0x1400;
pub const UNSIGNED_BYTE: u32 = 0x1401;
pub const SHORT: u32 = 0x1402;
pub const UNSIGNED_SHORT: u32 = 0x1403;
pub const INT: u32 = 0x1404;
pub const UNSIGNED_INT: u32 = 0x1405;
pub const FLOAT: u32 = 0x1406;
pub const HALF_FLOAT: u32 = 0x140B;
pub const UNSIGNED_INT_24_8: u32 = 0x84FA;

// Capabilities
pub const DEPTH_TEST: u32 = 0x0B71;
pub const BLEND: u32 = 0x0BE2;
pub const SCISSOR_TEST: u32 = 0x0C11;

// Comparison functions
pub const NEVER: u32 = 0x0200;
pub const LESS: u32 = 0x0201;
pub const EQUAL: u32 = 0x0202;
pub const LEQUAL: u32 = 0x0203;
pub const GREATER: u32 = 0x0204;
pub const NOTEQUAL: u32 = 0x0205;
pub const GEQUAL: u32 = 0x0206;
pub const ALWAYS: u32 = 0x0207;

// Winding orders and cull faces
pub const CW: u32 = 0x0900;
pub const CCW: u32 = 0x0901;
pub const FRONT: u32 = 0x0404;
pub const BACK: u32 = 0x0405;

// Blend factors
pub const ZERO: u32 = 0;
pub const ONE: u32 = 1;
pub const SRC_COLOR: u32 = 0x0300;
pub const ONE_MINUS_SRC_COLOR: u32 = 0x0301;
pub const SRC_ALPHA: u32 = 0x0302;
pub const ONE_MINUS_SRC_ALPHA: u32 = 0x0303;
pub const DST_ALPHA: u32 = 0x0304;
pub const ONE_MINUS_DST_ALPHA: u32 = 0x0305;
pub const DST_COLOR: u32 = 0x0306;
pub const ONE_MINUS_DST_COLOR: u32 = 0x0307;
pub const SRC_ALPHA_SATURATE: u32 = 0x0308;
pub const CONSTANT_COLOR: u32 = 0x8001;
pub const ONE_MINUS_CONSTANT_COLOR: u32 = 0x8002;

// Blend equations
pub const FUNC_ADD: u32 = 0x8006;
pub const MIN: u32 = 0x8007;
pub const MAX: u32 = 0x8008;
pub const FUNC_SUBTRACT: u32 = 0x800A;
pub const FUNC_REVERSE_SUBTRACT: u32 = 0x800B;

// Clear masks
pub const DEPTH_BUFFER_BIT: u32 = 0x00000100;
pub const COLOR_BUFFER_BIT: u32 = 0x00004000;

// Texture targets and units
pub const TEXTURE_2D: u32 = 0x0DE1;
pub const TEXTURE_3D: u32 = 0x806F;
pub const TEXTURE_2D_ARRAY: u32 = 0x8C1A;
pub const TEXTURE0: u32 = 0x84C0;

// Texture parameters
pub const TEXTURE_MAG_FILTER: u32 = 0x2800;
pub const TEXTURE_MIN_FILTER: u32 = 0x2801;
pub const TEXTURE_WRAP_S: u32 = 0x2802;
pub const TEXTURE_WRAP_T: u32 = 0x2803;
pub const TEXTURE_WRAP_R: u32 = 0x8072;
pub const TEXTURE_MIN_LOD: u32 = 0x813A;
pub const TEXTURE_MAX_LOD: u32 = 0x813B;
pub const TEXTURE_COMPARE_MODE: u32 = 0x884C;
pub const TEXTURE_COMPARE_FUNC: u32 = 0x884D;
pub const COMPARE_REF_TO_TEXTURE: u32 = 0x884E;
pub const TEXTURE_MAX_ANISOTROPY_EXT: u32 = 0x84FE;
pub const NONE: u32 = 0;

// Filter modes
pub const NEAREST: u32 = 0x2600;
pub const LINEAR: u32 = 0x2601;
pub const NEAREST_MIPMAP_NEAREST: u32 = 0x2700;
pub const LINEAR_MIPMAP_NEAREST: u32 = 0x2701;
pub const NEAREST_MIPMAP_LINEAR: u32 = 0x2702;
pub const LINEAR_MIPMAP_LINEAR: u32 = 0x2703;

// Address modes
pub const CLAMP_TO_EDGE: u32 = 0x812F;
pub const REPEAT: u32 = 0x2901;
pub const MIRRORED_REPEAT: u32 = 0x8370;

// Shader stages
pub const FRAGMENT_SHADER: u32 = 0x8B30;
pub const VERTEX_SHADER: u32 = 0x8B31;

// Framebuffers and renderbuffers
pub const FRAMEBUFFER: u32 = 0x8D40;
pub const RENDERBUFFER: u32 = 0x8D41;
pub const COLOR_ATTACHMENT0: u32 = 0x8CE0;
pub const DEPTH_ATTACHMENT: u32 = 0x8D00;
pub const FRAMEBUFFER_COMPLETE: u32 = 0x8CD5;

// Pixel store parameters
pub const UNPACK_ROW_LENGTH: u32 = 0x0CF2;

// Sized internal formats
pub const RGBA8: u32 = 0x8058;
pub const R8: u32 = 0x8229;
pub const RG8: u32 = 0x822B;
pub const R8I: u32 = 0x8231;
pub const R8UI: u32 = 0x8232;
pub const RG8I: u32 = 0x8237;
pub const RG8UI: u32 = 0x8238;
pub const DEPTH_COMPONENT16: u32 = 0x81A5;
pub const DEPTH_COMPONENT24: u32 = 0x81A6;
pub const DEPTH_COMPONENT32F: u32 = 0x8CAC;
pub const DEPTH24_STENCIL8: u32 = 0x88F0;
pub const SRGB8_ALPHA8: u32 = 0x8C43;
pub const RGBA8UI: u32 = 0x8D7C;
pub const RGBA8I: u32 = 0x8D8E;
pub const R8_SNORM: u32 = 0x8F94;
pub const RG8_SNORM: u32 = 0x8F95;
pub const RGBA8_SNORM: u32 = 0x8F97;

// Unsized pixel formats
pub const DEPTH_COMPONENT: u32 = 0x1902;
pub const RED: u32 = 0x1903;
pub const RGBA: u32 = 0x1908;
pub const DEPTH_STENCIL: u32 = 0x84F9;
pub const RG: u32 = 0x8227;
pub const RG_INTEGER: u32 = 0x8228;
pub const RED_INTEGER: u32 = 0x8D94;
pub const RGBA_INTEGER: u32 = 0x8D99;

} // verus!
