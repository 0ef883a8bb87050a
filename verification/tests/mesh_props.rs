//! Mesh buffer layout and draw commands.

use glrender::commands::GpuCmd;
use glrender::mesh::{flatten_vertices, vertices_from_words, Mesh, Vertex};
use glrender::vecmath::{Vec2Bits, Vec3Bits};

fn vertex(seed: u32) -> Vertex {
    Vertex {
        position: Vec3Bits { x: seed, y: seed + 1, z: seed + 2 },
        color_or_normal: Vec3Bits { x: seed + 3, y: seed + 4, z: seed + 5 },
        texture_uvs: Vec2Bits { u: seed + 6, v: seed + 7 },
    }
}

#[test]
fn build_emits_packed_layout_commands() {
    let vertices = vec![vertex(100), vertex(200), vertex(300)];
    let indices = vec![0u32, 1, 2];
    let (_, cmds) = Mesh::build(&vertices, &indices, 10, 11, 12);
    assert_eq!(cmds.len(), 11);
    assert_eq!(cmds[0], GpuCmd::BindVertexArray { vao: 10 });
    assert_eq!(cmds[1], GpuCmd::BindArrayBuffer { vbo: 11 });
    assert_eq!(cmds[2], GpuCmd::BindElementBuffer { ebo: 12 });
    let expected_words: Vec<u32> = vec![
        100, 101, 102, 103, 104, 105, 106, 107, //
        200, 201, 202, 203, 204, 205, 206, 207, //
        300, 301, 302, 303, 304, 305, 306, 307,
    ];
    assert_eq!(cmds[3], GpuCmd::UploadArrayBuffer { words: expected_words });
    assert_eq!(cmds[4], GpuCmd::UploadElementBuffer { indices: vec![0, 1, 2] });
    // Position at offset 0, colour-or-normal right after it, texture
    // coordinates last: tightly packed, 32-byte stride throughout.
    assert_eq!(
        cmds[5],
        GpuCmd::VertexAttrib { index: 0, size: 3, stride_bytes: 32, offset_bytes: 0 }
    );
    assert_eq!(
        cmds[6],
        GpuCmd::VertexAttrib { index: 1, size: 3, stride_bytes: 32, offset_bytes: 12 }
    );
    assert_eq!(
        cmds[7],
        GpuCmd::VertexAttrib { index: 2, size: 2, stride_bytes: 32, offset_bytes: 24 }
    );
    assert_eq!(cmds[8], GpuCmd::EnableVertexAttrib { index: 0 });
    assert_eq!(cmds[9], GpuCmd::EnableVertexAttrib { index: 1 });
    assert_eq!(cmds[10], GpuCmd::EnableVertexAttrib { index: 2 });
}

#[test]
fn render_issues_one_draw_covering_three_indices() {
    let vertices = vec![vertex(1), vertex(2), vertex(3)];
    let indices = vec![0u32, 1, 2];
    let (mesh, _) = Mesh::build(&vertices, &indices, 42, 43, 44);
    let cmds = mesh.render();
    assert_eq!(
        cmds,
        vec![
            GpuCmd::BindVertexArray { vao: 42 },
            GpuCmd::DrawTriangles { index_count: 3 },
        ]
    );
}

#[test]
fn vertices_from_words_requires_whole_records() {
    let words: Vec<u32> = (0..8).collect();
    let vs = vertices_from_words(&words).expect("eight words are one record");
    assert_eq!(vs.len(), 1);
    assert_eq!(vs[0].position, Vec3Bits { x: 0, y: 1, z: 2 });
    assert_eq!(vs[0].color_or_normal, Vec3Bits { x: 3, y: 4, z: 5 });
    assert_eq!(vs[0].texture_uvs, Vec2Bits { u: 6, v: 7 });

    let short: Vec<u32> = (0..7).collect();
    assert!(vertices_from_words(&short).is_none(), "a partial record must be rejected");
}

#[test]
fn flatten_and_rebuild_round_trip() {
    let vertices = vec![vertex(10), vertex(20)];
    let words = flatten_vertices(&vertices);
    assert_eq!(words.len(), 16);
    let rebuilt = vertices_from_words(&words).expect("packed words divide into records");
    assert_eq!(rebuilt, vertices);
}

#[test]
fn destroy_releases_all_mesh_handles() {
    let vertices = vec![vertex(1), vertex(2), vertex(3)];
    let indices = vec![0u32, 1, 2];
    let (mesh, _) = Mesh::build(&vertices, &indices, 50, 51, 52);
    assert_eq!(
        mesh.destroy(),
        vec![
            GpuCmd::DeleteVertexArray { vao: 50 },
            GpuCmd::DeleteBuffer { buffer: 51 },
            GpuCmd::DeleteBuffer { buffer: 52 },
        ]
    );
}
