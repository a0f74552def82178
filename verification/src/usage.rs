//! Usage flags of the declarative API, as bit masks.

use vstd::prelude::*;

verus! {

// Buffer usage flags
pub const BUFFER_USAGE_MAP_READ: u32 = 0x0001;
pub const BUFFER_USAGE_MAP_WRITE: u32 = 0x0002;
pub const BUFFER_USAGE_COPY_SRC: u32 = 0x0004;
pub const BUFFER_USAGE_COPY_DST: u32 = 0x0008;
pub const BUFFER_USAGE_INDEX: u32 = 0x0010;
pub const BUFFER_USAGE_VERTEX: u32 = 0x0020;
pub const BUFFER_USAGE_UNIFORM: u32 = 0x0040;
pub const BUFFER_USAGE_STORAGE: u32 = 0x0080;
pub const BUFFER_USAGE_INDIRECT: u32 = 0x0100;
pub const BUFFER_USAGE_QUERY_RESOLVE: u32 = 0x0200;

// Texture usage flags
pub const TEXTURE_USAGE_COPY_SRC: u32 = 0x01;
pub const TEXTURE_USAGE_COPY_DST: u32 = 0x02;
pub const TEXTURE_USAGE_TEXTURE_BINDING: u32 = 0x04;
pub const TEXTURE_USAGE_STORAGE_BINDING: u32 = 0x08;
pub const TEXTURE_USAGE_RENDER_ATTACHMENT: u32 = 0x10;

} // verus!
