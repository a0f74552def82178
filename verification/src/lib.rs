//! A WebGPU-shaped resource-binding emulation layer for an immediate-mode
//! graphics API.
//!
//! The library models every graphics object by a plain handle and turns each
//! operation (binding a bind group, beginning a render pass, drawing) into a
//! sequence of immediate-mode commands, which a thin unverified shell executes
//! against the real context.

pub mod bind_group;
pub mod command;
pub mod device;
pub mod error;
pub mod fbo_cache;
pub mod format;
pub mod gl;
pub mod handle;
pub mod pass;
pub mod pipeline;
pub mod queue;
pub mod reflection;
pub mod resources;
pub mod shader;
pub mod text;
pub mod types;
pub mod usage;

pub use handle::BufferHandle;
pub use handle::FramebufferHandle;
pub use handle::HandleAllocator;
pub use handle::ProgramHandle;
pub use handle::RenderbufferHandle;
pub use handle::SamplerHandle;
pub use handle::ShaderHandle;
pub use handle::TextureHandle;
pub use handle::VertexArrayHandle;
