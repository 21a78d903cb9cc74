//! Resource handles: thin copyable value types carrying a native handle, the
//! owning memory-block handle where one exists, and the metadata later
//! operations read. None of them owns the context; destruction always goes
//! through it explicitly.

use crate::format::TextureFormat;
use vstd::prelude::*;

verus! {

/// A buffer handle: the native buffer, the handle of its memory block in the
/// memory manager, and the address of its host mapping (zero when the buffer
/// is not host-visible).
#[derive(Clone, Copy, Debug, PartialEq, Eq, Structural)]
pub struct Buffer {
    pub raw: u64,
    pub memory_handle: usize,
    pub mapped_data: u64,
}

impl Buffer {
    /// The address of the buffer's host mapping.
    pub fn data(&self) -> (addr: u64)
        ensures
            addr == self.mapped_data,
    {
        self.mapped_data
    }
}

/// A texture handle, carrying its abstract pixel format for later aspect and
/// subresource computation.
#[derive(Clone, Copy, Debug, PartialEq, Eq, Structural)]
pub struct Texture {
    pub raw: u64,
    pub memory_handle: usize,
    pub format: TextureFormat,
}

/// A view over a texture.
#[derive(Clone, Copy, Debug, PartialEq, Eq, Structural)]
pub struct TextureView {
    pub raw: u64,
}

/// A sampler handle.
#[derive(Clone, Copy, Debug, PartialEq, Eq, Structural)]
pub struct Sampler {
    pub raw: u64,
}

} // verus!
