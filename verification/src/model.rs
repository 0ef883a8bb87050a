//! Models: one transform, one mesh per sub-object of the source asset, and
//! an optional texture.
//!
//! The asset parser (an outside collaborator driven by the unverified shell)
//! hands this module the position/normal/texture-coordinate/index arrays of
//! each sub-object, components as `f32` bit patterns. Building a model zips
//! those arrays into packed vertex records — failing with a [`LoadError`]
//! when normals or texture coordinates are missing for some position, rather
//! than reading out of bounds — and uploads one [`Mesh`] per sub-object.

use vstd::prelude::*;
use vstd::arithmetic::div_mod::{lemma_fundamental_div_mod, lemma_mod_bound};
use crate::commands::GpuCmd;
use crate::mesh::{Mesh, Vertex, flattened_vertices, mesh_build_cmds};
use crate::shader::{Shader, UniformAction};
use crate::texture::Texture;
use crate::transform::Transform;
use crate::vecmath::{Vec2Bits, Vec3Bits};

verus! {

/// One sub-object of a parsed mesh asset: flat position, normal and texture
/// coordinate arrays (components as `f32` bit patterns) plus the index list,
/// already triangulated and sharing one index per distinct vertex.
pub struct SubMesh {
    pub positions: Vec<u32>,
    pub normals: Vec<u32>,
    pub texcoords: Vec<u32>,
    pub indices: Vec<u32>,
}

/// How many vertices the sub-object's position array describes.
pub open spec fn vertex_count(sub: SubMesh) -> int {
    sub.positions@.len() as int / 3
}

/// Whether the sub-object carries a normal and a texture coordinate for
/// every position: the precondition of the parser's expected format.
pub open spec fn submesh_valid(sub: SubMesh) -> bool {
    &&& sub.normals@.len() >= 3 * vertex_count(sub)
    &&& sub.texcoords@.len() >= 2 * vertex_count(sub)
}

/// The vertex records obtained by zipping the sub-object's position, normal
/// and texture-coordinate arrays by vertex index.
pub open spec fn assembled_vertices(sub: SubMesh) -> Seq<Vertex> {
    Seq::new(
        vertex_count(sub) as nat,
        |i: int|
            Vertex {
                position: (Vec3Bits {
                    x: sub.positions@[3 * i],
                    y: sub.positions@[3 * i + 1],
                    z: sub.positions@[3 * i + 2],
                }),
                color_or_normal: (Vec3Bits {
                    x: sub.normals@[3 * i],
                    y: sub.normals@[3 * i + 1],
                    z: sub.normals@[3 * i + 2],
                }),
                texture_uvs: (Vec2Bits {
                    u: sub.texcoords@[2 * i],
                    v: sub.texcoords@[2 * i + 1],
                }),
            },
    )
}

/// Whether the sub-object carries a normal and a texture coordinate for
/// every position.
pub fn check_submesh(sub: &SubMesh) -> (ok: bool)
    ensures
        ok == submesh_valid(*sub),
{
    let n = sub.positions.len() / 3;
    sub.normals.len() / 3 >= n && sub.texcoords.len() / 2 >= n
}

/// Zip the sub-object's arrays into packed vertex records.
pub fn assemble_vertices(sub: &SubMesh) -> (vs: Vec<Vertex>)
    requires
        submesh_valid(*sub),
    ensures
        vs@ == assembled_vertices(*sub),
{
    let n = sub.positions.len() / 3;
    proof {
        lemma_fundamental_div_mod(sub.positions@.len() as int, 3);
        lemma_mod_bound(sub.positions@.len() as int, 3);
    }
    let mut vs: Vec<Vertex> = Vec::new();
    let mut i: usize = 0;
    while i < n
        invariant
            n == vertex_count(*sub),
            submesh_valid(*sub),
            3 * n <= sub.positions@.len(),
            sub.positions@.len() <= usize::MAX,
            0 <= i <= n,
            vs@ == assembled_vertices(*sub).take(i as int),
        decreases n - i,
    {
        let v = Vertex {
            position: Vec3Bits {
                x: sub.positions[3 * i],
                y: sub.positions[3 * i + 1],
                z: sub.positions[3 * i + 2],
            },
            color_or_normal: Vec3Bits {
                x: sub.normals[3 * i],
                y: sub.normals[3 * i + 1],
                z: sub.normals[3 * i + 2],
            },
            texture_uvs: Vec2Bits { u: sub.texcoords[2 * i], v: sub.texcoords[2 * i + 1] },
        };
        vs.push(v);
        proof {
            assert(vs@ =~= assembled_vertices(*sub).take(i + 1int));
        }
        i = i + 1;
    }
    proof {
        assert(assembled_vertices(*sub).take(n as int) =~= assembled_vertices(*sub));
    }
    vs
}

/// Which resource a load failure concerns.
#[derive(Clone, Copy, Debug, PartialEq, Eq, Structural)]
pub enum ResourceKind {
    Mesh,
    Texture,
}

/// A failure to turn an on-disk asset into a renderable resource.
#[derive(Debug)]
pub struct LoadError {
    pub resource: ResourceKind,
    pub reason: String,
}

/// The GPU handles one mesh is uploaded into.
#[derive(Clone, Copy, Debug, PartialEq, Eq, Structural)]
pub struct MeshHandles {
    pub vao: u32,
    pub vbo: u32,
    pub ebo: u32,
}

/// A renderable model.
#[derive(Debug)]
pub struct Model {
    pub transform: Transform,
    meshes: Vec<Mesh>,
    texture: Option<Texture>,
}

/// The exact command sequence that uploads a whole model's meshes: the
/// build commands of sub-object `j` stand at offset `11 * j`.
pub open spec fn model_build_cmds(
    submeshes: Seq<SubMesh>,
    handles: Seq<MeshHandles>,
    cmds: Seq<GpuCmd>,
) -> bool {
    &&& cmds.len() == 11 * submeshes.len()
    &&& forall|j: int|
        0 <= j < submeshes.len() ==> mesh_build_cmds(
            handles[j].vao,
            handles[j].vbo,
            handles[j].ebo,
            flattened_vertices(assembled_vertices(submeshes[j])),
            submeshes[j].indices@,
            #[trigger] cmds.subrange(11 * j, 11 * j + 11),
        )
}

/// The exact command sequence that draws a model: upload its world matrix to
/// the resolved `"model"` uniform location, bind its texture if it has one,
/// then bind and draw each mesh in order.
pub open spec fn model_render_cmds(m: Model, location: i32, cmds: Seq<GpuCmd>) -> bool {
    let head: int = if m.texture() is Some {
        2
    } else {
        1
    };
    &&& cmds.len() == head + 2 * m.meshes().len()
    &&& cmds[0] matches GpuCmd::UploadMat4 { location: l, column_major } && l == location
        && column_major@ == m.world_transform().matrix_bits()
    &&& m.texture() matches Some(t) ==> cmds[1] == (GpuCmd::BindTexture2d {
        texture: t.texture_id(),
    })
    &&& forall|j: int|
        0 <= j < m.meshes().len() ==> cmds[head + 2 * j] == (GpuCmd::BindVertexArray {
            vao: (#[trigger] m.meshes()[j]).vao(),
        }) && cmds[head + 2 * j + 1] == (GpuCmd::DrawTriangles {
            index_count: m.meshes()[j].index_count(),
        })
}

impl Model {
    /// The model's transform, for contracts that cannot name the field.
    pub closed spec fn world_transform(self) -> Transform {
        self.transform
    }

    /// The meshes this model draws, one per sub-object of the source asset.
    pub closed spec fn meshes(self) -> Seq<Mesh> {
        self.meshes@
    }

    /// The model's texture, if it was built with one.
    pub closed spec fn texture(self) -> Option<Texture> {
        self.texture
    }

    /// Build a model from the parsed sub-objects of a mesh asset, an
    /// already-built optional texture, and one set of freshly generated GPU
    /// handles per sub-object. Fails — touching nothing on the GPU — exactly
    /// when some sub-object lacks normals or texture coordinates for one of
    /// its positions.
    pub fn build(
        submeshes: &Vec<SubMesh>,
        texture: Option<Texture>,
        handles: &Vec<MeshHandles>,
    ) -> (r: Result<(Model, Vec<GpuCmd>), LoadError>)
        requires
            handles@.len() == submeshes@.len(),
            forall|j: int| 0 <= j < submeshes@.len() ==> submeshes@[j].indices@.len() <= u32::MAX,
        ensures
            r is Ok <==> (forall|j: int|
                0 <= j < submeshes@.len() ==> submesh_valid(#[trigger] submeshes@[j])),
            r matches Ok(p) ==> ({
                &&& p.0.world_transform() == Transform::identity()
                &&& p.0.texture() == texture
                &&& p.0.meshes().len() == submeshes@.len()
                &&& forall|j: int|
                    0 <= j < submeshes@.len() ==> (#[trigger] p.0.meshes()[j]).vao()
                        == handles@[j].vao && p.0.meshes()[j].index_count()
                        == submeshes@[j].indices@.len()
                &&& model_build_cmds(submeshes@, handles@, p.1@)
            }),
            r matches Err(e) ==> e.resource == ResourceKind::Mesh,
    {
        let n = submeshes.len();
        let mut j: usize = 0;
        while j < n
            invariant
                n == submeshes@.len(),
                0 <= j <= n,
                forall|k: int| 0 <= k < j ==> submesh_valid(#[trigger] submeshes@[k]),
            decreases n - j,
        {
            if !check_submesh(&submeshes[j]) {
                return Err(
                    LoadError {
                        resource: ResourceKind::Mesh,
                        reason: "sub-object lacks a normal or texture coordinate for one of its positions".to_owned(),
                    },
                );
            }
            j = j + 1;
        }
        let mut meshes: Vec<Mesh> = Vec::new();
        let mut cmds: Vec<GpuCmd> = Vec::new();
        let mut i: usize = 0;
        while i < n
            invariant
                n == submeshes@.len(),
                n == handles@.len(),
                0 <= i <= n,
                forall|k: int| 0 <= k < n ==> submesh_valid(#[trigger] submeshes@[k]),
                forall|k: int|
                    0 <= k < n ==> (#[trigger] submeshes@[k]).indices@.len() <= u32::MAX,
                meshes@.len() == i,
                cmds@.len() == 11 * i,
                forall|k: int|
                    0 <= k < i ==> (#[trigger] meshes@[k]).vao() == handles@[k].vao
                        && meshes@[k].index_count() == submeshes@[k].indices@.len(),
                forall|k: int|
                    0 <= k < i ==> mesh_build_cmds(
                        handles@[k].vao,
                        handles@[k].vbo,
                        handles@[k].ebo,
                        flattened_vertices(assembled_vertices(submeshes@[k])),
                        submeshes@[k].indices@,
                        #[trigger] cmds@.subrange(11 * k, 11 * k + 11),
                    ),
            decreases n - i,
        {
            let ghost cmds_before = cmds@;
            let sub = &submeshes[i];
            let h = handles[i];
            let vertices = assemble_vertices(sub);
            let (mesh, mut mesh_cmds) = Mesh::build(&vertices, &sub.indices, h.vao, h.vbo, h.ebo);
            meshes.push(mesh);
            cmds.append(&mut mesh_cmds);
            proof {
                assert(cmds@.subrange(11 * i as int, 11 * i as int + 11) =~= cmds@.skip(
                    11 * i as int,
                ));
                assert forall|k: int| 0 <= k < i implies #[trigger] cmds@.subrange(
                    11 * k,
                    11 * k + 11,
                ) =~= cmds_before.subrange(11 * k, 11 * k + 11) by {
                }
            }
            i = i + 1;
        }
        Ok((Model { transform: Transform::default(), meshes, texture }, cmds))
    }

    /// Draw the model: upload its world matrix to the shader's `"model"`
    /// uniform — which the caller has already had resolved — bind its
    /// texture if it has one, and draw each mesh.
    pub fn render(&self, shader: &Shader) -> (cmds: Vec<GpuCmd>)
        requires
            shader.wf(),
            shader.cache().contains_key("model"@),
        ensures
            model_render_cmds(*self, shader.cache()["model"@], cmds@),
    {
        let mut cmds: Vec<GpuCmd> = Vec::new();
        let mat = self.transform.to_matrix();
        match shader.mat4_uniform(&mat, "model") {
            UniformAction::Upload(c) => cmds.push(c),
            UniformAction::NeedLocation => {
                proof {
                    assert(false);
                }
            },
        }
        if let Some(t) = &self.texture {
            cmds.push(t.use_texture());
        }
        let ghost head: int = cmds@.len() as int;
        let n = self.meshes.len();
        let mut j: usize = 0;
        while j < n
            invariant
                n == self.meshes@.len(),
                0 <= j <= n,
                cmds@.len() == head + 2 * j,
                head == if self.texture is Some { 2int } else { 1int },
                cmds@[0] matches GpuCmd::UploadMat4 { location: l, column_major } && l
                    == shader.cache()["model"@] && column_major@ == self.world_transform().matrix_bits(),
                self.texture matches Some(t) ==> cmds@[1] == (GpuCmd::BindTexture2d {
                    texture: t.texture_id(),
                }),
                forall|k: int|
                    0 <= k < j ==> #[trigger] cmds@[head + 2 * k] == (GpuCmd::BindVertexArray {
                        vao: self.meshes@[k].vao(),
                    }) && cmds@[head + 2 * k + 1] == (GpuCmd::DrawTriangles {
                        index_count: self.meshes@[k].index_count(),
                    }),
            decreases n - j,
        {
            let mut mesh_cmds = self.meshes[j].render();
            cmds.append(&mut mesh_cmds);
            j = j + 1;
        }
        cmds
    }
}

/// The commands that release the GPU resources of a sequence of meshes, in
/// order.
pub open spec fn meshes_destroy_cmds(meshes: Seq<Mesh>) -> Seq<GpuCmd>
    decreases meshes.len(),
{
    if meshes.len() == 0 {
        Seq::empty()
    } else {
        meshes.first().destroy_cmds() + meshes_destroy_cmds(meshes.drop_first())
    }
}

/// The commands that release everything a model owns: each mesh's resources
/// in order, then the texture's handle if the model has one.
pub open spec fn model_destroy_cmds(meshes: Seq<Mesh>, texture: Option<Texture>) -> Seq<GpuCmd> {
    meshes_destroy_cmds(meshes) + (match texture {
        Some(t) => seq![GpuCmd::DeleteTexture { texture: t.texture_id() }],
        None => Seq::empty(),
    })
}

impl Model {
    /// Release everything the model owns on the GPU: each mesh's resources,
    /// then the texture's handle if there is one. Consumes the model.
    pub fn destroy(self) -> (cmds: Vec<GpuCmd>)
        ensures
            cmds@ == model_destroy_cmds(self.meshes(), self.texture()),
    {
        let ghost orig = self.meshes();
        let ghost orig_texture = self.texture();
        let Model { transform: _, mut meshes, texture } = self;
        let mut cmds: Vec<GpuCmd> = Vec::new();
        while meshes.len() > 0
            invariant
                cmds@ + meshes_destroy_cmds(meshes@) == meshes_destroy_cmds(orig),
            decreases meshes@.len(),
        {
            let ghost remaining = meshes@;
            let mesh = meshes.remove(0);
            let mut mesh_cmds = mesh.destroy();
            cmds.append(&mut mesh_cmds);
            proof {
                assert(meshes@ =~= remaining.drop_first());
                assert(cmds@ + meshes_destroy_cmds(meshes@) =~= meshes_destroy_cmds(orig));
            }
        }
        match texture {
            Some(t) => {
                cmds.push(t.destroy());
            },
            None => {},
        }
        proof {
            assert(cmds@ =~= model_destroy_cmds(orig, orig_texture));
        }
        cmds
    }
}

impl Default for Model {
    /// A model that draws nothing: identity transform, no meshes, no
    /// texture.
    fn default() -> (m: Self)
        ensures
            m.world_transform() == Transform::identity(),
            m.meshes() == Seq::<Mesh>::empty(),
            m.texture() is None,
    {
        Model { transform: Transform::default(), meshes: Vec::new(), texture: None }
    }
}

/// Law: rendering an untextured model binds no texture. Every command of an
/// untextured model's render sequence is the matrix upload or one of the
/// per-mesh bind/draw pairs, so none is a texture binding.
pub proof fn lemma_untextured_render_binds_no_texture(m: Model, location: i32, cmds: Seq<GpuCmd>)
    requires
        model_render_cmds(m, location, cmds),
        m.texture() is None,
    ensures
        forall|i: int| 0 <= i < cmds.len() ==> !((#[trigger] cmds[i]) is BindTexture2d),
{
    let head: int = if m.texture() is Some {
        2
    } else {
        1
    };
    assert forall|i: int| 0 <= i < cmds.len() implies !((#[trigger] cmds[i]) is BindTexture2d) by {
        if i > 0 {
            let d = i - 1;
            lemma_fundamental_div_mod(d, 2);
            lemma_mod_bound(d, 2);
            let k = d / 2;
            let r = d % 2;
            assert(0 <= k < m.meshes().len());
            assert(cmds[head + 2 * k] == (GpuCmd::BindVertexArray { vao: m.meshes()[k].vao() })
                && cmds[head + 2 * k + 1] == (GpuCmd::DrawTriangles {
                index_count: m.meshes()[k].index_count(),
            }));
            if r == 0 {
                assert(i == head + 2 * k);
            } else {
                assert(i == head + 2 * k + 1);
            }
        }
    }
}

} // verus!
