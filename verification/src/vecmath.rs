//! Vectors, quaternions and matrices carried as `f32` bit patterns.
//!
//! The verified layer never computes with floating point directly: every
//! component is stored as the `u32` bit pattern of an `f32`, and the handful
//! of linear-algebra operations the scene layer needs are delegated to the
//! `glam` crate through trusted wrappers. Each wrapper's result is described
//! by an uninterpreted function of its arguments, so contracts downstream can
//! state exactly which operation produced which value.

use vstd::prelude::*;

verus! {

/// Bit pattern of `f32` value `1.0`.
pub const ONE_BITS: u32 = 0x3F80_0000;

/// Bit pattern of `f32` value `-1.0`.
pub const NEG_ONE_BITS: u32 = 0xBF80_0000;

/// A 3-component vector of `f32` bit patterns.
#[derive(Clone, Copy, Debug, PartialEq, Eq, Structural)]
pub struct Vec3Bits {
    pub x: u32,
    pub y: u32,
    pub z: u32,
}

/// A 2-component vector of `f32` bit patterns.
#[derive(Clone, Copy, Debug, PartialEq, Eq, Structural)]
pub struct Vec2Bits {
    pub u: u32,
    pub v: u32,
}

/// A quaternion of `f32` bit patterns, `w` the scalar part.
#[derive(Clone, Copy, Debug, PartialEq, Eq, Structural)]
pub struct QuatBits {
    pub x: u32,
    pub y: u32,
    pub z: u32,
    pub w: u32,
}

impl Vec3Bits {
    /// The components as a sequence, for use in contracts.
    pub open spec fn bits(self) -> Seq<u32> {
        seq![self.x, self.y, self.z]
    }
}

impl Vec2Bits {
    /// The components as a sequence, for use in contracts.
    pub open spec fn bits(self) -> Seq<u32> {
        seq![self.u, self.v]
    }
}

impl QuatBits {
    /// The components as a sequence, for use in contracts.
    pub open spec fn bits(self) -> Seq<u32> {
        seq![self.x, self.y, self.z, self.w]
    }

    /// The identity rotation.
    pub open spec fn identity() -> QuatBits {
        QuatBits { x: 0, y: 0, z: 0, w: ONE_BITS }
    }
}

/// The column-major matrix `Translation * Rotation * Scale` that glam's
/// `Mat4::from_scale_rotation_translation` computes from the given component
/// bit patterns.
pub uninterp spec fn srt_matrix(scale: Seq<u32>, rotation: Seq<u32>, translation: Seq<u32>) -> Seq<u32>;

/// The inverse matrix that glam's `Mat4::inverse` computes from the given
/// column-major matrix bit patterns.
pub uninterp spec fn mat4_inverse(m: Seq<u32>) -> Seq<u32>;

/// The right-handed OpenGL perspective projection that glam computes from
/// vertical field of view (radians), aspect ratio, and near/far planes, all
/// as `f32` bit patterns.
pub uninterp spec fn perspective_matrix(fov_y: u32, aspect: u32, near: u32, far: u32) -> Seq<u32>;

/// The Hamilton product `a * b` that glam's quaternion multiplication
/// computes from the given component bit patterns.
pub uninterp spec fn quat_product(a: Seq<u32>, b: Seq<u32>) -> Seq<u32>;

/// The rotation of vector `v` by quaternion `q` that glam's `Quat * Vec3`
/// computes from the given component bit patterns.
pub uninterp spec fn rotated_vec3(q: Seq<u32>, v: Seq<u32>) -> Seq<u32>;

/// The componentwise sum `a + b` that glam's `Vec3` addition computes.
pub uninterp spec fn vec3_sum(a: Seq<u32>, b: Seq<u32>) -> Seq<u32>;

/// The componentwise product `v * s` that glam's `Vec3 * f32` computes, `s`
/// the bit pattern of the scalar.
pub uninterp spec fn vec3_scaled(v: Seq<u32>, s: u32) -> Seq<u32>;

/// The vector that glam's `Vec3::normalize_or_zero` computes: `v` scaled to
/// unit length, or zero if `v` has zero length.
pub uninterp spec fn normalized_or_zero(v: Seq<u32>) -> Seq<u32>;

/// The quaternion that glam's `Quat::from_rotation_x` computes for the given
/// angle bit pattern (radians).
pub uninterp spec fn quat_about_x(angle: u32) -> Seq<u32>;

/// The quaternion that glam's `Quat::from_rotation_y` computes for the given
/// angle bit pattern (radians).
pub uninterp spec fn quat_about_y(angle: u32) -> Seq<u32>;

/// Relies on glam's `Mat4::from_scale_rotation_translation`: composes scale,
/// then rotation, then translation into one column-major matrix. Its fourth
/// column is the translation itself, unchanged, with `1.0` as the fourth
/// component — so a matrix of this shape applied to the origin yields
/// exactly the translation.
#[verifier::external_body]
pub fn mat4_from_srt(scale: Vec3Bits, rotation: QuatBits, translation: Vec3Bits) -> (m: [u32; 16])
    ensures
        m@ == srt_matrix(scale.bits(), rotation.bits(), translation.bits()),
        m@[12] == translation.x,
        m@[13] == translation.y,
        m@[14] == translation.z,
        m@[15] == ONE_BITS,
{
    let s: glam::Vec3 = bytemuck::cast([scale.x, scale.y, scale.z]);
    let q: glam::Quat = bytemuck::cast([rotation.x, rotation.y, rotation.z, rotation.w]);
    let t: glam::Vec3 = bytemuck::cast([translation.x, translation.y, translation.z]);
    bytemuck::cast(glam::Mat4::from_scale_rotation_translation(s, q, t).to_cols_array())
}

/// Relies on glam's `Mat4::inverse` on a column-major matrix.
#[verifier::external_body]
pub fn mat4_inv(m: &[u32; 16]) -> (r: [u32; 16])
    ensures
        r@ == mat4_inverse(m@),
{
    let mm: glam::Mat4 = bytemuck::cast(*m);
    bytemuck::cast(mm.inverse().to_cols_array())
}

/// Relies on glam's right-handed OpenGL perspective projection
/// (`glam::camera::rh::proj::opengl::perspective`).
#[verifier::external_body]
pub fn mat4_perspective(fov_y: u32, aspect: u32, near: u32, far: u32) -> (m: [u32; 16])
    ensures
        m@ == perspective_matrix(fov_y, aspect, near, far),
{
    let fov_f = bytemuck::cast(fov_y);
    let aspect_f = bytemuck::cast(aspect);
    let near_f = bytemuck::cast(near);
    let far_f = bytemuck::cast(far);
    bytemuck::cast(glam::camera::rh::proj::opengl::perspective(fov_f, aspect_f, near_f, far_f).to_cols_array())
}

/// Relies on glam's quaternion multiplication (the Hamilton product).
#[verifier::external_body]
pub fn compose_quats(a: QuatBits, b: QuatBits) -> (r: QuatBits)
    ensures
        r.bits() == quat_product(a.bits(), b.bits()),
{
    let aq: glam::Quat = bytemuck::cast([a.x, a.y, a.z, a.w]);
    let bq: glam::Quat = bytemuck::cast([b.x, b.y, b.z, b.w]);
    let r: [u32; 4] = bytemuck::cast(aq * bq);
    QuatBits { x: r[0], y: r[1], z: r[2], w: r[3] }
}

/// Relies on glam's rotation of a `Vec3` by a `Quat`.
#[verifier::external_body]
pub fn rotate_vec3(q: QuatBits, v: Vec3Bits) -> (r: Vec3Bits)
    ensures
        r.bits() == rotated_vec3(q.bits(), v.bits()),
{
    let qq: glam::Quat = bytemuck::cast([q.x, q.y, q.z, q.w]);
    let vv: glam::Vec3 = bytemuck::cast([v.x, v.y, v.z]);
    let r: [u32; 3] = bytemuck::cast(qq * vv);
    Vec3Bits { x: r[0], y: r[1], z: r[2] }
}

/// Relies on glam's componentwise `Vec3` addition.
#[verifier::external_body]
pub fn add_vec3(a: Vec3Bits, b: Vec3Bits) -> (r: Vec3Bits)
    ensures
        r.bits() == vec3_sum(a.bits(), b.bits()),
{
    let av: glam::Vec3 = bytemuck::cast([a.x, a.y, a.z]);
    let bv: glam::Vec3 = bytemuck::cast([b.x, b.y, b.z]);
    let r: [u32; 3] = bytemuck::cast(av + bv);
    Vec3Bits { x: r[0], y: r[1], z: r[2] }
}

/// Relies on glam's componentwise `Vec3` multiplication, the scalar splat
/// across all three components.
#[verifier::external_body]
pub fn scale_vec3(v: Vec3Bits, s: u32) -> (r: Vec3Bits)
    ensures
        r.bits() == vec3_scaled(v.bits(), s),
{
    let vv: glam::Vec3 = bytemuck::cast([v.x, v.y, v.z]);
    let sv: glam::Vec3 = bytemuck::cast([s, s, s]);
    let r: [u32; 3] = bytemuck::cast(vv * sv);
    Vec3Bits { x: r[0], y: r[1], z: r[2] }
}

/// Relies on glam's `Vec3::normalize_or_zero`.
#[verifier::external_body]
pub fn normalize_or_zero_vec3(v: Vec3Bits) -> (r: Vec3Bits)
    ensures
        r.bits() == normalized_or_zero(v.bits()),
{
    let vv: glam::Vec3 = bytemuck::cast([v.x, v.y, v.z]);
    let r: [u32; 3] = bytemuck::cast(vv.normalize_or_zero());
    Vec3Bits { x: r[0], y: r[1], z: r[2] }
}

/// Relies on glam's `Quat::from_rotation_x` (angle in radians).
#[verifier::external_body]
pub fn rotation_x_quat(angle: u32) -> (r: QuatBits)
    ensures
        r.bits() == quat_about_x(angle),
{
    let af = bytemuck::cast(angle);
    let r: [u32; 4] = bytemuck::cast(glam::Quat::from_rotation_x(af));
    QuatBits { x: r[0], y: r[1], z: r[2], w: r[3] }
}

/// Relies on glam's `Quat::from_rotation_y` (angle in radians).
#[verifier::external_body]
pub fn rotation_y_quat(angle: u32) -> (r: QuatBits)
    ensures
        r.bits() == quat_about_y(angle),
{
    let af = bytemuck::cast(angle);
    let r: [u32; 4] = bytemuck::cast(glam::Quat::from_rotation_y(af));
    QuatBits { x: r[0], y: r[1], z: r[2], w: r[3] }
}

} // verus!
