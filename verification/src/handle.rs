//! Plain handles for graphics objects.
//!
//! Every object of the underlying graphics API (buffer, texture, sampler,
//! shader, program, vertex array, framebuffer, renderbuffer) is named by a
//! numeric handle. The library allocates the numbers itself, so freshness and
//! distinctness of handles are provable; the shell that executes the command
//! stream keeps the mapping from numbers to real objects.

use vstd::prelude::*;

verus! {

/// Handle of a buffer object.
#[derive(Clone, Copy, Debug, PartialEq, Eq, Structural)]
pub struct BufferHandle(pub u32);

/// Handle of a texture object.
#[derive(Clone, Copy, Debug, PartialEq, Eq, Structural)]
pub struct TextureHandle(pub u32);

/// Handle of a sampler object.
#[derive(Clone, Copy, Debug, PartialEq, Eq, Structural)]
pub struct SamplerHandle(pub u32);

/// Handle of a compiled shader object (one stage).
#[derive(Clone, Copy, Debug, PartialEq, Eq, Structural)]
pub struct ShaderHandle(pub u32);

/// Handle of a linked program object.
#[derive(Clone, Copy, Debug, PartialEq, Eq, Structural)]
pub struct ProgramHandle(pub u32);

/// Handle of a vertex-array object.
#[derive(Clone, Copy, Debug, PartialEq, Eq, Structural)]
pub struct VertexArrayHandle(pub u32);

/// Handle of a framebuffer object.
#[derive(Clone, Copy, Debug, PartialEq, Eq, Structural)]
pub struct FramebufferHandle(pub u32);

/// Handle of a renderbuffer object.
#[derive(Clone, Copy, Debug, PartialEq, Eq, Structural)]
pub struct RenderbufferHandle(pub u32);

/// Allocator of handle numbers. Numbers are handed out in increasing order,
/// so a number below `next` is one that was already issued and a number at or
/// above `next` was never issued: freshness is provable.
#[derive(Clone, Copy, Debug, PartialEq, Eq, Structural)]
pub struct HandleAllocator {
    pub next: u32,
}

impl HandleAllocator {
    /// A new allocator. Numbering starts at 1 so that 0 never names an object.
    pub fn new() -> (r: HandleAllocator)
        ensures
            r.next == 1,
    {
        HandleAllocator { next: 1 }
    }

    /// Whether `n` more handles can still be issued.
    pub open spec fn can_issue(self, n: int) -> bool {
        self.next + n <= u32::MAX
    }

    /// Issue a fresh handle number.
    pub fn issue(&mut self) -> (r: u32)
        requires
            old(self).can_issue(1),
        ensures
            r == old(self).next,
            final(self).next == old(self).next + 1,
    {
        let r = self.next;
        self.next = self.next + 1;
        r
    }
}

} // verus!
