//! Model building from parsed sub-objects, and model rendering.

use glrender::commands::GpuCmd;
use glrender::model::{MeshHandles, Model, ResourceKind, SubMesh};
use glrender::shader::{BuildOutcome, Shader, StageResult};
use glrender::texture::Texture;

fn built_shader(program: u32) -> Shader {
    let ok = StageResult { success: true, log: Vec::new() };
    let b = Shader::build(program);
    let b = match b.advance(ok) {
        BuildOutcome::Pending(next) => next,
        _ => panic!("vertex stage should advance"),
    };
    let ok = StageResult { success: true, log: Vec::new() };
    let b = match b.advance(ok) {
        BuildOutcome::Pending(next) => next,
        _ => panic!("fragment stage should advance"),
    };
    let ok = StageResult { success: true, log: Vec::new() };
    match b.advance(ok) {
        BuildOutcome::Built(shader) => shader,
        _ => panic!("link stage should finish the build"),
    }
}

/// One triangular sub-object, components as bit patterns of small floats.
fn triangle_submesh() -> SubMesh {
    let p = |v: f32| v.to_bits();
    SubMesh {
        positions: vec![
            p(0.0), p(0.0), p(0.0), //
            p(1.0), p(0.0), p(0.0), //
            p(0.0), p(1.0), p(0.0),
        ],
        normals: vec![
            p(0.0), p(0.0), p(1.0), //
            p(0.0), p(0.0), p(1.0), //
            p(0.0), p(0.0), p(1.0),
        ],
        texcoords: vec![p(0.0), p(0.0), p(1.0), p(0.0), p(0.0), p(1.0)],
        indices: vec![0, 1, 2],
    }
}

fn draw_count(cmds: &[GpuCmd]) -> usize {
    cmds.iter()
        .filter(|c| matches!(c, GpuCmd::DrawTriangles { .. }))
        .count()
}

fn texture_bind_count(cmds: &[GpuCmd]) -> usize {
    cmds.iter()
        .filter(|c| matches!(c, GpuCmd::BindTexture2d { .. }))
        .count()
}

#[test]
fn two_subobjects_give_two_meshes_and_two_draws() {
    let submeshes = vec![triangle_submesh(), triangle_submesh()];
    let handles = vec![
        MeshHandles { vao: 1, vbo: 2, ebo: 3 },
        MeshHandles { vao: 4, vbo: 5, ebo: 6 },
    ];
    let (model, build_cmds) = Model::build(&submeshes, None, &handles).expect("valid sub-objects");
    assert_eq!(build_cmds.len(), 22, "eleven upload commands per sub-object");

    let mut shader = built_shader(1);
    shader.store_location("model", 0);
    let cmds = model.render(&shader);
    assert_eq!(draw_count(&cmds), 2, "each owned mesh is drawn");
    assert_eq!(cmds[1], GpuCmd::BindVertexArray { vao: 1 });
    assert_eq!(cmds[2], GpuCmd::DrawTriangles { index_count: 3 });
    assert_eq!(cmds[3], GpuCmd::BindVertexArray { vao: 4 });
    assert_eq!(cmds[4], GpuCmd::DrawTriangles { index_count: 3 });
}

#[test]
fn missing_normals_fail_the_load() {
    let mut sub = triangle_submesh();
    sub.normals = Vec::new();
    let handles = vec![MeshHandles { vao: 1, vbo: 2, ebo: 3 }];
    let err = Model::build(&vec![sub], None, &handles).expect_err("normals are required");
    assert_eq!(err.resource, ResourceKind::Mesh);
    assert!(!err.reason.is_empty());
}

#[test]
fn short_texcoords_fail_the_load() {
    let mut sub = triangle_submesh();
    sub.texcoords.pop();
    let handles = vec![MeshHandles { vao: 1, vbo: 2, ebo: 3 }];
    let err = Model::build(&vec![sub], None, &handles)
        .expect_err("a texture coordinate per position is required");
    assert_eq!(err.resource, ResourceKind::Mesh);
}

#[test]
fn untextured_render_uploads_identity_and_binds_nothing() {
    // Scenario: one triangular sub-object, no texture path. The shader must
    // receive a "model" upload equal to the default transform's (identity)
    // matrix, and no texture binding may occur.
    let submeshes = vec![triangle_submesh()];
    let handles = vec![MeshHandles { vao: 8, vbo: 9, ebo: 10 }];
    let (model, _) = Model::build(&submeshes, None, &handles).expect("valid sub-object");

    let mut shader = built_shader(1);
    shader.store_location("model", 5);
    let cmds = model.render(&shader);

    let identity: Vec<u32> = glam::Mat4::IDENTITY
        .to_cols_array()
        .iter()
        .map(|f| f.to_bits())
        .collect();
    match &cmds[0] {
        GpuCmd::UploadMat4 { location, column_major } => {
            assert_eq!(*location, 5);
            assert_eq!(column_major.to_vec(), identity);
        }
        other => panic!("the first command must upload the model matrix, got {:?}", other),
    }
    assert_eq!(texture_bind_count(&cmds), 0, "an untextured model binds no texture");
    assert_eq!(draw_count(&cmds), 1);
    assert_eq!(cmds.len(), 3);
}

#[test]
fn textured_model_binds_its_texture_once() {
    let pixels = vec![0u8; 4];
    let (texture, _) = Texture::new(77, 1, 1, &pixels);
    let submeshes = vec![triangle_submesh()];
    let handles = vec![MeshHandles { vao: 8, vbo: 9, ebo: 10 }];
    let (model, _) = Model::build(&submeshes, Some(texture), &handles).expect("valid sub-object");

    let mut shader = built_shader(1);
    shader.store_location("model", 0);
    let cmds = model.render(&shader);
    assert_eq!(cmds[1], GpuCmd::BindTexture2d { texture: 77 });
    assert_eq!(texture_bind_count(&cmds), 1);
}

#[test]
fn default_model_draws_nothing() {
    let model = Model::default();
    let mut shader = built_shader(1);
    shader.store_location("model", 0);
    let cmds = model.render(&shader);
    assert_eq!(draw_count(&cmds), 0);
    assert_eq!(cmds.len(), 1, "only the matrix upload remains");
}

#[test]
fn destroy_releases_meshes_then_texture() {
    let pixels = vec![0u8; 4];
    let (texture, _) = Texture::new(70, 1, 1, &pixels);
    let submeshes = vec![triangle_submesh(), triangle_submesh()];
    let handles = vec![
        MeshHandles { vao: 1, vbo: 2, ebo: 3 },
        MeshHandles { vao: 4, vbo: 5, ebo: 6 },
    ];
    let (model, _) = Model::build(&submeshes, Some(texture), &handles).expect("valid sub-objects");
    let cmds = model.destroy();
    assert_eq!(
        cmds,
        vec![
            GpuCmd::DeleteVertexArray { vao: 1 },
            GpuCmd::DeleteBuffer { buffer: 2 },
            GpuCmd::DeleteBuffer { buffer: 3 },
            GpuCmd::DeleteVertexArray { vao: 4 },
            GpuCmd::DeleteBuffer { buffer: 5 },
            GpuCmd::DeleteBuffer { buffer: 6 },
            GpuCmd::DeleteTexture { texture: 70 },
        ]
    );
}
