//! Errors of the emulation layer.

use vstd::prelude::*;

verus! {

/// A creation-time failure. Degraded-mode conditions are not errors: they are
/// reported through the command stream and rendering proceeds.
#[derive(Clone, Copy, Debug, PartialEq, Eq, Structural)]
pub enum Error {
    /// Two entries of one bind group layout use the same binding number.
    DuplicateBinding,
    /// The handle space is exhausted; no further object can be named.
    OutOfHandles,
    /// A surface texture cannot be bound as a sampled texture.
    SurfaceTextureNotBindable,
}

} // verus!
