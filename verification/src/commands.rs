use vstd::prelude::*;

use crate::matrix::Mat4;
use crate::palette::ChannelValue;
use crate::rat::Rat;

verus! {

/// Handle to a linked GPU program. The host that owns the GPU context
/// mints the handle when it creates the object and maps it back when it
/// replays commands; the renderer treats it as an opaque token.
#[derive(Clone, Copy, PartialEq, Eq, Structural, Debug)]
pub struct ProgramHandle(pub u32);

/// Handle to a GPU data buffer, minted and mapped by the host.
#[derive(Clone, Copy, PartialEq, Eq, Structural, Debug)]
pub struct BufferHandle(pub u32);

/// Handle to a resolved uniform location. A location is resolved against
/// one linked program and must never be used with another; the renderer
/// keeps each one inside the drawable that owns that program.
#[derive(Clone, Copy, PartialEq, Eq, Structural, Debug)]
pub struct UniformHandle(pub u32);

/// One GPU call of the per-frame protocol, as plain data.
///
/// The renderer computes a command list each frame; the host replays it
/// against the real GPU context in order, converting the exact rationals
/// to floats at the boundary. Buffer-data commands act on the most
/// recently bound buffer, as the underlying pipeline does.
#[derive(Clone, PartialEq, Eq, Debug)]
pub enum GlCommand {
    /// Clear the color and depth buffers.
    Clear,
    /// Make the drawable's linked program current.
    UseProgram { program: ProgramHandle },
    /// Bind a buffer as the current vertex-attribute data source.
    BindArrayBuffer { buffer: BufferHandle },
    /// Bind a buffer as the current element-index source.
    BindIndexBuffer { buffer: BufferHandle },
    /// Describe attribute `slot` as `size` floats per vertex, tightly
    /// packed, read from the currently bound array buffer.
    ConfigureAttribute { slot: u32, size: u32 },
    /// Turn attribute `slot` on.
    EnableAttribute { slot: u32 },
    /// Upload whole-number vertex coordinates into the currently bound
    /// array buffer, once, at construction time.
    UploadStaticVertexData { coords: Vec<i64> },
    /// Upload the fixed triangle topology into the currently bound index
    /// buffer, once, at construction time.
    UploadStaticIndexData { indices: Vec<u16> },
    /// Rewrite the currently bound array buffer with this frame's gradient
    /// palette; issued every draw call.
    UploadDynamicColorData { colors: Vec<ChannelValue> },
    /// Upload a constant RGBA color to a uniform.
    UploadColorUniform { location: UniformHandle, red: Rat, green: Rat, blue: Rat, alpha: Rat },
    /// Upload a 4x4 transform matrix to a uniform.
    UploadMatrixUniform { location: UniformHandle, matrix: Mat4 },
    /// Draw `vertex_count` vertices as a triangle list, unindexed.
    DrawTriangles { vertex_count: usize },
    /// Draw `index_count` indices as a triangle list through the currently
    /// bound index buffer.
    DrawIndexedTriangles { index_count: usize },
}

} // verus!
