//! Explicit graphics-context commands.
//!
//! The graphics context is a single mutable slot shared by everything drawn
//! in a frame, so correctness there is a call-ordering discipline. The
//! library makes that ordering checkable by returning each intended effect
//! as a [`GpuCmd`] value: command sequences appear verbatim in contracts,
//! and the unverified shell replays them against the driver one by one.

use vstd::prelude::*;
use crate::vecmath::Vec3Bits;

verus! {

/// One call against the graphics context.
///
/// All `f32` payloads are carried as bit patterns; matrices are column-major,
/// matching the storage order the upload call expects.
#[derive(Debug, PartialEq)]
pub enum GpuCmd {
    /// Make the given program the active shader program.
    UseProgram { program: u32 },
    /// Upload a column-major 4x4 matrix to the given uniform location.
    UploadMat4 { location: i32, column_major: [u32; 16] },
    /// Upload a 3-component vector to the given uniform location.
    UploadVec3 { location: i32, value: Vec3Bits },
    /// Select the active texture unit.
    ActiveTextureUnit { unit: u32 },
    /// Bind a 2D texture to the active unit.
    BindTexture2d { texture: u32 },
    /// Set nearest-neighbour minification filtering on the bound 2D texture.
    SetMinFilterNearest,
    /// Set nearest-neighbour magnification filtering on the bound 2D texture.
    SetMagFilterNearest,
    /// Upload an 8-bit-per-channel RGBA image to the bound 2D texture.
    UploadTexture2d { width: u32, height: u32, rgba: Vec<u8> },
    /// Generate mipmaps for the given texture.
    GenerateMipmaps { texture: u32 },
    /// Bind a vertex-array object.
    BindVertexArray { vao: u32 },
    /// Bind a buffer as the vertex (array) buffer.
    BindArrayBuffer { vbo: u32 },
    /// Bind a buffer as the index (element) buffer.
    BindElementBuffer { ebo: u32 },
    /// Upload the vertex buffer's contents (static usage), as `f32` words.
    UploadArrayBuffer { words: Vec<u32> },
    /// Upload the index buffer's contents (static usage).
    UploadElementBuffer { indices: Vec<u32> },
    /// Describe one float vertex attribute: `size` components per vertex,
    /// read with the given byte stride from the given byte offset.
    VertexAttrib { index: u32, size: u32, stride_bytes: u32, offset_bytes: u32 },
    /// Enable the vertex attribute with the given index.
    EnableVertexAttrib { index: u32 },
    /// Issue one indexed triangle-list draw over `index_count` indices.
    DrawTriangles { index_count: u32 },
    /// Release a shader program's GPU handle.
    DeleteProgram { program: u32 },
    /// Release a vertex-array object.
    DeleteVertexArray { vao: u32 },
    /// Release a buffer object.
    DeleteBuffer { buffer: u32 },
    /// Release a texture's GPU handle.
    DeleteTexture { texture: u32 },
}

} // verus!
