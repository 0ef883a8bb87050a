//! GPU meshes: vertex records, their packed buffer layout, and the
//! vertex/index buffer lifecycle for one drawable surface.
//!
//! The vertex byte layout is a hard contract between the CPU-side record and
//! the attribute strides configured at build time: position at byte offset 0,
//! the colour-or-normal attribute immediately after it, texture coordinates
//! last, tightly packed with no padding. The layout is stated once, in
//! [`vertex_words`] and [`mesh_build_cmds`], and the build emits attribute
//! descriptors with exactly those offsets and the 32-byte stride.

use vstd::prelude::*;
use crate::commands::GpuCmd;
use crate::vecmath::{Vec2Bits, Vec3Bits};

verus! {

/// Words (`f32` components) per vertex record.
pub const VERTEX_WORDS: usize = 8;

/// Byte stride of one packed vertex record.
pub const VERTEX_STRIDE_BYTES: u32 = 32;

/// One vertex: position, a colour-or-normal attribute, and texture
/// coordinates, all `f32` bit patterns.
#[derive(Clone, Copy, Debug, PartialEq, Eq, Structural)]
pub struct Vertex {
    pub position: Vec3Bits,
    pub color_or_normal: Vec3Bits,
    pub texture_uvs: Vec2Bits,
}

/// The packed words of one vertex record, in buffer order.
pub open spec fn vertex_words(v: Vertex) -> Seq<u32> {
    seq![
        v.position.x,
        v.position.y,
        v.position.z,
        v.color_or_normal.x,
        v.color_or_normal.y,
        v.color_or_normal.z,
        v.texture_uvs.u,
        v.texture_uvs.v,
    ]
}

/// The packed words of a whole vertex buffer, record after record.
pub open spec fn flattened_vertices(vs: Seq<Vertex>) -> Seq<u32>
    decreases vs.len(),
{
    if vs.len() == 0 {
        Seq::empty()
    } else {
        flattened_vertices(vs.drop_last()) + vertex_words(vs.last())
    }
}

/// Pack vertex records into the flat word buffer that is uploaded to the GPU.
pub fn flatten_vertices(vertices: &Vec<Vertex>) -> (words: Vec<u32>)
    ensures
        words@ == flattened_vertices(vertices@),
{
    let mut words: Vec<u32> = Vec::new();
    let n = vertices.len();
    let mut i: usize = 0;
    while i < n
        invariant
            n == vertices@.len(),
            0 <= i <= n,
            words@ == flattened_vertices(vertices@.take(i as int)),
        decreases n - i,
    {
        let v = vertices[i];
        words.push(v.position.x);
        words.push(v.position.y);
        words.push(v.position.z);
        words.push(v.color_or_normal.x);
        words.push(v.color_or_normal.y);
        words.push(v.color_or_normal.z);
        words.push(v.texture_uvs.u);
        words.push(v.texture_uvs.v);
        proof {
            let taken = vertices@.take(i + 1int);
            assert(taken.drop_last() =~= vertices@.take(i as int));
            assert(taken.last() == vertices@[i as int]);
            assert(words@ =~= flattened_vertices(vertices@.take(i as int)) + vertex_words(
                vertices@[i as int],
            ));
        }
        i = i + 1;
    }
    proof {
        assert(vertices@.take(n as int) =~= vertices@);
    }
    words
}

/// The explicit, checked conversion from a flat word buffer to vertex
/// records. Succeeds exactly when the buffer length is a whole number of
/// records; the records pack back to exactly the given words.
pub fn vertices_from_words(words: &Vec<u32>) -> (r: Option<Vec<Vertex>>)
    ensures
        r is Some <==> words@.len() as int % (VERTEX_WORDS as int) == 0,
        r matches Some(vs) ==> flattened_vertices(vs@) == words@ && vs@.len() * (
        VERTEX_WORDS as int) == words@.len(),
{
    if words.len() % VERTEX_WORDS != 0 {
        return None;
    }
    let n = words.len() / VERTEX_WORDS;
    let mut vs: Vec<Vertex> = Vec::new();
    let mut i: usize = 0;
    while i < n
        invariant
            words@.len() == n * VERTEX_WORDS,
            n * VERTEX_WORDS <= usize::MAX,
            0 <= i <= n,
            vs@.len() == i,
            flattened_vertices(vs@) == words@.take(i as int * VERTEX_WORDS as int),
        decreases n - i,
    {
        let ghost prev = vs@;
        let base = i * VERTEX_WORDS;
        let v = Vertex {
            position: Vec3Bits { x: words[base], y: words[base + 1], z: words[base + 2] },
            color_or_normal: Vec3Bits {
                x: words[base + 3],
                y: words[base + 4],
                z: words[base + 5],
            },
            texture_uvs: Vec2Bits { u: words[base + 6], v: words[base + 7] },
        };
        vs.push(v);
        proof {
            assert(vs@.drop_last() =~= prev);
            assert(flattened_vertices(vs@) =~= words@.take((i + 1int) * VERTEX_WORDS as int));
        }
        i = i + 1;
    }
    proof {
        assert(words@.take(n as int * VERTEX_WORDS as int) =~= words@);
    }
    Some(vs)
}

/// A mesh's GPU resources: its vertex-array, vertex-buffer and index-buffer
/// handles, and the number of indices one draw covers.
#[derive(Debug)]
pub struct Mesh {
    vert_array_obj: u32,
    index_count: u32,
    vert_buffer_obj: u32,
    elem_buffer_obj: u32,
}

/// The exact command sequence that uploads one mesh: bind the vertex array
/// and both buffers, upload vertex words and indices (static usage), then
/// describe and enable the three attributes of the packed layout.
pub open spec fn mesh_build_cmds(
    vao: u32,
    vbo: u32,
    ebo: u32,
    words: Seq<u32>,
    indices: Seq<u32>,
    cmds: Seq<GpuCmd>,
) -> bool {
    &&& cmds.len() == 11
    &&& cmds[0] == (GpuCmd::BindVertexArray { vao })
    &&& cmds[1] == (GpuCmd::BindArrayBuffer { vbo })
    &&& cmds[2] == (GpuCmd::BindElementBuffer { ebo })
    &&& cmds[3] matches GpuCmd::UploadArrayBuffer { words: w } && w@ == words
    &&& cmds[4] matches GpuCmd::UploadElementBuffer { indices: ix } && ix@ == indices
    &&& cmds[5] == (GpuCmd::VertexAttrib {
        index: 0,
        size: 3,
        stride_bytes: VERTEX_STRIDE_BYTES,
        offset_bytes: 0,
    })
    &&& cmds[6] == (GpuCmd::VertexAttrib {
        index: 1,
        size: 3,
        stride_bytes: VERTEX_STRIDE_BYTES,
        offset_bytes: 12,
    })
    &&& cmds[7] == (GpuCmd::VertexAttrib {
        index: 2,
        size: 2,
        stride_bytes: VERTEX_STRIDE_BYTES,
        offset_bytes: 24,
    })
    &&& cmds[8] == (GpuCmd::EnableVertexAttrib { index: 0 })
    &&& cmds[9] == (GpuCmd::EnableVertexAttrib { index: 1 })
    &&& cmds[10] == (GpuCmd::EnableVertexAttrib { index: 2 })
}

impl Mesh {
    /// The vertex-array handle this mesh draws with.
    pub closed spec fn vao(self) -> u32 {
        self.vert_array_obj
    }

    /// The vertex-buffer handle.
    pub closed spec fn vbo(self) -> u32 {
        self.vert_buffer_obj
    }

    /// The index-buffer handle.
    pub closed spec fn ebo(self) -> u32 {
        self.elem_buffer_obj
    }

    /// How many indices one draw of this mesh covers.
    pub closed spec fn index_count(self) -> u32 {
        self.index_count
    }

    /// Upload one drawable surface into the given (freshly generated) GPU
    /// handles: the returned commands load both buffers and configure the
    /// packed attribute layout, and the returned mesh draws exactly
    /// `indices.len()` indices.
    pub fn build(vertices: &Vec<Vertex>, indices: &Vec<u32>, vao: u32, vbo: u32, ebo: u32) -> (r: (
        Mesh,
        Vec<GpuCmd>,
    ))
        requires
            indices@.len() <= u32::MAX,
        ensures
            r.0.vao() == vao,
            r.0.vbo() == vbo,
            r.0.ebo() == ebo,
            r.0.index_count() == indices@.len(),
            mesh_build_cmds(vao, vbo, ebo, flattened_vertices(vertices@), indices@, r.1@),
    {
        let words = flatten_vertices(vertices);
        let index_data = copy_indices(indices);
        let mut cmds: Vec<GpuCmd> = Vec::new();
        cmds.push(GpuCmd::BindVertexArray { vao });
        cmds.push(GpuCmd::BindArrayBuffer { vbo });
        cmds.push(GpuCmd::BindElementBuffer { ebo });
        cmds.push(GpuCmd::UploadArrayBuffer { words });
        cmds.push(GpuCmd::UploadElementBuffer { indices: index_data });
        cmds.push(GpuCmd::VertexAttrib {
            index: 0,
            size: 3,
            stride_bytes: VERTEX_STRIDE_BYTES,
            offset_bytes: 0,
        });
        cmds.push(GpuCmd::VertexAttrib {
            index: 1,
            size: 3,
            stride_bytes: VERTEX_STRIDE_BYTES,
            offset_bytes: 12,
        });
        cmds.push(GpuCmd::VertexAttrib {
            index: 2,
            size: 2,
            stride_bytes: VERTEX_STRIDE_BYTES,
            offset_bytes: 24,
        });
        cmds.push(GpuCmd::EnableVertexAttrib { index: 0 });
        cmds.push(GpuCmd::EnableVertexAttrib { index: 1 });
        cmds.push(GpuCmd::EnableVertexAttrib { index: 2 });
        let mesh = Mesh {
            vert_array_obj: vao,
            index_count: indices.len() as u32,
            vert_buffer_obj: vbo,
            elem_buffer_obj: ebo,
        };
        (mesh, cmds)
    }

    /// The commands that release this mesh's GPU resources.
    pub open spec fn destroy_cmds(self) -> Seq<GpuCmd> {
        seq![
            GpuCmd::DeleteVertexArray { vao: self.vao() },
            GpuCmd::DeleteBuffer { buffer: self.vbo() },
            GpuCmd::DeleteBuffer { buffer: self.ebo() },
        ]
    }

    /// Release the mesh's GPU resources: its vertex-array object and both
    /// buffers. Consumes the mesh, so no later draw can name them.
    pub fn destroy(self) -> (cmds: Vec<GpuCmd>)
        ensures
            cmds@ == self.destroy_cmds(),
    {
        let mut cmds: Vec<GpuCmd> = Vec::new();
        cmds.push(GpuCmd::DeleteVertexArray { vao: self.vert_array_obj });
        cmds.push(GpuCmd::DeleteBuffer { buffer: self.vert_buffer_obj });
        cmds.push(GpuCmd::DeleteBuffer { buffer: self.elem_buffer_obj });
        proof {
            assert(cmds@ =~= self.destroy_cmds());
        }
        cmds
    }

    /// Bind this mesh's vertex array and issue one indexed triangle-list
    /// draw covering exactly its index count.
    pub fn render(&self) -> (cmds: Vec<GpuCmd>)
        ensures
            cmds@.len() == 2,
            cmds@[0] == (GpuCmd::BindVertexArray { vao: self.vao() }),
            cmds@[1] == (GpuCmd::DrawTriangles { index_count: self.index_count() }),
    {
        let mut cmds: Vec<GpuCmd> = Vec::new();
        cmds.push(GpuCmd::BindVertexArray { vao: self.vert_array_obj });
        cmds.push(GpuCmd::DrawTriangles { index_count: self.index_count });
        cmds
    }
}

/// An element-for-element copy of an index buffer.
fn copy_indices(indices: &Vec<u32>) -> (r: Vec<u32>)
    ensures
        r@ == indices@,
{
    let mut r: Vec<u32> = Vec::new();
    let n = indices.len();
    let mut i: usize = 0;
    while i < n
        invariant
            n == indices@.len(),
            0 <= i <= n,
            r@ == indices@.take(i as int),
        decreases n - i,
    {
        r.push(indices[i]);
        proof {
            assert(indices@.take(i + 1int) =~= indices@.take(i as int).push(indices@[i as int]));
        }
        i = i + 1;
    }
    proof {
        assert(indices@.take(n as int) =~= indices@);
    }
    r
}

} // verus!
