//! Shader build state machine and uniform-location caching.

use glrender::commands::GpuCmd;
use glrender::shader::{
    BuildOutcome, CompileError, Shader, ShaderStage, StageResult, UniformAction,
};

fn success() -> StageResult {
    StageResult { success: true, log: Vec::new() }
}

fn failure(log: &[u8]) -> StageResult {
    StageResult { success: false, log: log.to_vec() }
}

fn built_shader(program: u32) -> Shader {
    let b = Shader::build(program);
    let b = match b.advance(success()) {
        BuildOutcome::Pending(next) => next,
        _ => panic!("vertex stage should advance"),
    };
    let b = match b.advance(success()) {
        BuildOutcome::Pending(next) => next,
        _ => panic!("fragment stage should advance"),
    };
    match b.advance(success()) {
        BuildOutcome::Built(shader) => shader,
        _ => panic!("link stage should finish the build"),
    }
}

#[test]
fn build_advances_vertex_fragment_link() {
    let b = Shader::build(7);
    assert_eq!(b.stage, ShaderStage::Vertex);
    let b = match b.advance(success()) {
        BuildOutcome::Pending(next) => next,
        _ => panic!("expected a pending build"),
    };
    assert_eq!(b.stage, ShaderStage::Fragment);
    assert_eq!(b.program, 7);
    let b = match b.advance(success()) {
        BuildOutcome::Pending(next) => next,
        _ => panic!("expected a pending build"),
    };
    assert_eq!(b.stage, ShaderStage::Link);
    let shader = match b.advance(success()) {
        BuildOutcome::Built(shader) => shader,
        _ => panic!("expected a built shader"),
    };
    assert_eq!(shader.use_shader(), GpuCmd::UseProgram { program: 7 });
}

#[test]
fn vertex_failure_reports_vertex_stage_and_ends_build() {
    let b = Shader::build(3);
    // A malformed vertex shader fails its compile stage; the build ends
    // here, so the link stage is never reached.
    let outcome = b.advance(failure(b"0:1: syntax error"));
    match outcome {
        BuildOutcome::Failed(CompileError { stage, diagnostic }) => {
            assert_eq!(stage, ShaderStage::Vertex);
            assert_eq!(diagnostic, b"0:1: syntax error".to_vec());
        }
        _ => panic!("a failed stage must end the build"),
    }
}

#[test]
fn fragment_failure_reports_fragment_stage() {
    let b = Shader::build(3);
    let b = match b.advance(success()) {
        BuildOutcome::Pending(next) => next,
        _ => panic!("vertex stage should advance"),
    };
    match b.advance(failure(b"bad fragment")) {
        BuildOutcome::Failed(e) => {
            assert_eq!(e.stage, ShaderStage::Fragment);
            assert_eq!(e.diagnostic, b"bad fragment".to_vec());
        }
        _ => panic!("a failed stage must end the build"),
    }
}

#[test]
fn link_failure_reports_link_stage() {
    let b = Shader::build(3);
    let b = match b.advance(success()) {
        BuildOutcome::Pending(next) => next,
        _ => panic!("vertex stage should advance"),
    };
    let b = match b.advance(success()) {
        BuildOutcome::Pending(next) => next,
        _ => panic!("fragment stage should advance"),
    };
    match b.advance(failure(b"undefined entry")) {
        BuildOutcome::Failed(e) => assert_eq!(e.stage, ShaderStage::Link),
        _ => panic!("a failed link must end the build"),
    }
}

#[test]
fn diagnostic_is_truncated_to_one_kilobyte() {
    let long_log = vec![b'x'; 5000];
    let b = Shader::build(1);
    match b.advance(failure(&long_log)) {
        BuildOutcome::Failed(e) => {
            assert_eq!(e.diagnostic.len(), 1024);
            assert_eq!(e.diagnostic, long_log[..1024].to_vec());
        }
        _ => panic!("a failed stage must end the build"),
    }
}

/// Resolve-and-upload as the renderer drives it: on a cache miss, ask the
/// (counting) resolver once, record the answer, and retry.
fn upload_counting(
    shader: &mut Shader,
    mat: &[u32; 16],
    name: &str,
    resolved: i32,
    lookups: &mut u32,
) -> GpuCmd {
    loop {
        match shader.mat4_uniform(mat, name) {
            UniformAction::Upload(cmd) => return cmd,
            UniformAction::NeedLocation => {
                *lookups += 1;
                shader.store_location(name, resolved);
            }
        }
    }
}

#[test]
fn uniform_location_is_resolved_only_once() {
    let mut shader = built_shader(11);
    let mat = [0u32; 16];
    let mut lookups: u32 = 0;
    let first = upload_counting(&mut shader, &mat, "model", 4, &mut lookups);
    let second = upload_counting(&mut shader, &mat, "model", 4, &mut lookups);
    assert_eq!(lookups, 1, "the second upload must hit the cache");
    assert_eq!(first, GpuCmd::UploadMat4 { location: 4, column_major: mat });
    assert_eq!(second, first);
    // A different name resolves independently, again only once.
    upload_counting(&mut shader, &mat, "view", 9, &mut lookups);
    upload_counting(&mut shader, &mat, "view", 9, &mut lookups);
    assert_eq!(lookups, 2);
}

#[test]
fn unknown_uniform_location_is_cached_and_uploaded() {
    // -1 means "not an active uniform"; the upload is emitted all the same
    // and the driver ignores it, so no error surfaces here.
    let mut shader = built_shader(2);
    assert_eq!(shader.cached_location("unused"), None);
    shader.store_location("unused", -1);
    assert_eq!(shader.cached_location("unused"), Some(-1));
    let mat = [7u32; 16];
    match shader.mat4_uniform(&mat, "unused") {
        UniformAction::Upload(cmd) => {
            assert_eq!(cmd, GpuCmd::UploadMat4 { location: -1, column_major: mat })
        }
        UniformAction::NeedLocation => panic!("the location is cached"),
    }
}

#[test]
fn vec3_uniform_uses_cached_location() {
    let mut shader = built_shader(2);
    let value = glrender::vecmath::Vec3Bits { x: 1, y: 2, z: 3 };
    assert!(matches!(
        shader.vec3_uniform(value, "light"),
        UniformAction::NeedLocation
    ));
    shader.store_location("light", 6);
    match shader.vec3_uniform(value, "light") {
        UniformAction::Upload(cmd) => assert_eq!(cmd, GpuCmd::UploadVec3 { location: 6, value }),
        UniformAction::NeedLocation => panic!("the location is cached"),
    }
}

#[test]
fn destroy_releases_the_program_handle() {
    let shader = built_shader(21);
    assert_eq!(shader.destroy(), GpuCmd::DeleteProgram { program: 21 });
}
