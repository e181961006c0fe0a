//! Plain descriptions of the device resources that a run allocates.
//!
//! A plan says how large a resource is and what it may be used for. The code
//! that owns the device allocates what a plan says; nothing here touches it.

use vstd::prelude::*;

verus! {

/// What a buffer may be used for.
#[derive(Clone, Copy, Debug, PartialEq, Eq, Structural)]
pub struct BufferUsage {
    /// Bound to a shader as a storage buffer.
    pub storage: bool,
    /// Bound to a shader as a uniform.
    pub uniform: bool,
    /// Bound to a pipeline as a vertex source.
    pub vertex: bool,
    /// Source of a copy.
    pub copy_src: bool,
    /// Destination of a copy.
    pub copy_dst: bool,
    /// Mapped for reading by the host.
    pub map_read: bool,
}

/// A buffer to allocate.
#[derive(Clone, Copy, Debug, PartialEq, Eq, Structural)]
pub struct BufferPlan {
    /// Size in bytes.
    pub size: u64,
    /// What the buffer is used for.
    pub usage: BufferUsage,
}

/// What a texture may be used for.
#[derive(Clone, Copy, Debug, PartialEq, Eq, Structural)]
pub struct TextureUsage {
    /// Colour target of a render pass.
    pub render_attachment: bool,
    /// Sampled by a shader.
    pub texture_binding: bool,
    /// Source of a copy.
    pub copy_src: bool,
    /// Destination of a copy.
    pub copy_dst: bool,
}

/// A two-dimensional RGBA8 texture to allocate.
#[derive(Clone, Copy, Debug, PartialEq, Eq, Structural)]
pub struct TexturePlan {
    /// Pixels in a row.
    pub width: u32,
    /// Rows.
    pub height: u32,
    /// What the texture is used for.
    pub usage: TextureUsage,
}

/// How a shader may touch a bound storage buffer.
#[derive(Clone, Copy, Debug, PartialEq, Eq, Structural)]
pub enum Access {
    /// The shader reads the buffer.
    ReadOnly,
    /// The shader reads and writes the buffer.
    ReadWrite,
}

/// A usage with nothing allowed.
pub open spec fn no_buffer_usage() -> BufferUsage {
    BufferUsage {
        storage: false,
        uniform: false,
        vertex: false,
        copy_src: false,
        copy_dst: false,
        map_read: false,
    }
}

/// Whether the host can ever see the bytes of a buffer of this usage, by
/// mapping it or by copying out of it.
pub open spec fn leaves_device(usage: BufferUsage) -> bool {
    usage.map_read || usage.copy_src
}

impl BufferUsage {
    /// A usage with nothing allowed.
    pub fn none() -> (usage: BufferUsage)
        ensures
            usage == no_buffer_usage(),
    {
        BufferUsage {
            storage: false,
            uniform: false,
            vertex: false,
            copy_src: false,
            copy_dst: false,
            map_read: false,
        }
    }
}

} // verus!
