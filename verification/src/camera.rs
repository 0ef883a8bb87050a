//! A first-person style camera: view and projection matrices, and the
//! per-frame accumulation of keyboard look/move input into the camera's
//! transform.
//!
//! Reading the key state belongs to the window collaborator, so the
//! unverified shell snapshots it into an [`InputState`] once per frame and
//! hands it in; everything the snapshot decides is stated here.

use vstd::prelude::*;
use crate::transform::Transform;
use crate::vecmath::{Vec3Bits, ONE_BITS, NEG_ONE_BITS, mat4_inv, mat4_inverse, mat4_perspective,
    perspective_matrix, compose_quats, quat_product, quat_about_x, quat_about_y, rotation_x_quat,
    rotation_y_quat, rotate_vec3, rotated_vec3, add_vec3, vec3_sum, scale_vec3, vec3_scaled,
    normalize_or_zero_vec3, normalized_or_zero};

verus! {

/// Bit pattern of the vertical field of view in radians: 90 degrees.
pub const FOV_Y_RADIANS_BITS: u32 = 0x3FC9_0FDB;

/// Bit pattern of the aspect ratio of the 1600x1200 window, `f32` 4/3.
pub const ASPECT_BITS: u32 = 0x3FAA_AAAB;

/// Bit pattern of the near plane distance, `f32` 0.1.
pub const NEAR_PLANE_BITS: u32 = 0x3DCC_CCCD;

/// Bit pattern of the far plane distance, `f32` 500.0.
pub const FAR_PLANE_BITS: u32 = 0x43FA_0000;

/// Bit pattern of the per-frame movement step, `f32` 0.05.
pub const MOVE_SPEED_BITS: u32 = 0x3D4C_CCCD;

/// Bit pattern of the per-frame look step in radians, `f32` 0.05.
pub const LOOK_SPEED_BITS: u32 = 0x3D4C_CCCD;

/// Bit pattern of the negated per-frame look step, `f32` -0.05.
pub const LOOK_SPEED_NEG_BITS: u32 = 0xBD4C_CCCD;

/// One frame's snapshot of the keys the camera reads.
#[derive(Clone, Copy, Debug, PartialEq, Eq, Structural)]
pub struct InputState {
    pub move_forward: bool,
    pub move_back: bool,
    pub strafe_left: bool,
    pub strafe_right: bool,
    pub look_up: bool,
    pub look_down: bool,
    pub look_left: bool,
    pub look_right: bool,
}

/// Movement intent along the camera's local x axis: strafing right minus
/// strafing left.
pub open spec fn strafe_intent(input: InputState) -> int {
    (if input.strafe_right { 1int } else { 0int }) - (if input.strafe_left { 1int } else { 0int })
}

/// Movement intent along the camera's local z axis: moving forward is the
/// negative z direction.
pub open spec fn walk_intent(input: InputState) -> int {
    (if input.move_back { 1int } else { 0int }) - (if input.move_forward { 1int } else { 0int })
}

/// Look intent about the camera's local x axis: looking up is positive.
pub open spec fn pitch_intent(input: InputState) -> int {
    (if input.look_up { 1int } else { 0int }) - (if input.look_down { 1int } else { 0int })
}

/// Look intent about the world's y axis: looking left is positive.
pub open spec fn yaw_intent(input: InputState) -> int {
    (if input.look_left { 1int } else { 0int }) - (if input.look_right { 1int } else { 0int })
}

/// The look angle for an intent of `-1`, `0` or `+1`: the per-frame look
/// step with the intent's sign (an `f32` multiplication by `-1`, `0` or `1`
/// is exact).
pub open spec fn look_angle_bits(k: int) -> u32 {
    if k > 0 {
        LOOK_SPEED_BITS
    } else if k < 0 {
        LOOK_SPEED_NEG_BITS
    } else {
        0u32
    }
}

/// The `f32` bit pattern of an intent of `-1`, `0` or `+1`.
pub open spec fn unit_component_bits(k: int) -> u32 {
    if k > 0 {
        ONE_BITS
    } else if k < 0 {
        NEG_ONE_BITS
    } else {
        0u32
    }
}

/// The camera's rotation after one frame of look input: the yaw rotation
/// (about the world's y axis) composed on the left, the pitch rotation
/// (about the camera's local x axis) composed on the right.
pub open spec fn next_rotation(rotation: Seq<u32>, pitch_k: int, yaw_k: int) -> Seq<u32> {
    quat_product(
        quat_product(quat_about_y(look_angle_bits(yaw_k)), rotation),
        quat_about_x(look_angle_bits(pitch_k)),
    )
}

/// One frame's movement: the intent vector normalized (so diagonal movement
/// is not faster than axis movement) and scaled by the movement step, spent
/// along the rotated forward and right axes and the world's up axis.
pub open spec fn movement_delta(rotation: Seq<u32>, strafe_k: int, walk_k: int) -> Seq<u32> {
    let step = vec3_scaled(
        normalized_or_zero(
            seq![unit_component_bits(strafe_k), 0u32, unit_component_bits(walk_k)],
        ),
        MOVE_SPEED_BITS,
    );
    let forward = rotated_vec3(rotation, seq![0u32, 0u32, ONE_BITS]);
    let right = rotated_vec3(rotation, seq![ONE_BITS, 0u32, 0u32]);
    let up = seq![0u32, ONE_BITS, 0u32];
    vec3_sum(
        vec3_sum(vec3_scaled(forward, step[2]), vec3_scaled(right, step[0])),
        vec3_scaled(up, step[1]),
    )
}

/// A camera: one transform whose inverse is the view matrix.
pub struct Camera {
    pub transform: Transform,
}

impl Camera {
    /// The view matrix: the exact inverse of the camera's world matrix.
    pub fn get_view(&self) -> (m: [u32; 16])
        ensures
            m@ == mat4_inverse(self.transform.matrix_bits()),
    {
        let world = self.transform.to_matrix();
        mat4_inv(&world)
    }

    /// The projection matrix: a right-handed perspective projection from the
    /// fixed field of view, aspect ratio and near/far planes.
    pub fn get_proj(&self) -> (m: [u32; 16])
        ensures
            m@ == perspective_matrix(
                FOV_Y_RADIANS_BITS,
                ASPECT_BITS,
                NEAR_PLANE_BITS,
                FAR_PLANE_BITS,
            ),
    {
        mat4_perspective(FOV_Y_RADIANS_BITS, ASPECT_BITS, NEAR_PLANE_BITS, FAR_PLANE_BITS)
    }

    /// Accumulate one frame of key input: compose the look rotations into
    /// the camera's rotation, then move along the new rotation's forward and
    /// right axes and the world's up axis. Scale is untouched.
    pub fn update_inputs(&mut self, input: &InputState)
        ensures
            final(self).transform.scale == old(self).transform.scale,
            final(self).transform.rotation.bits() == next_rotation(
                old(self).transform.rotation.bits(),
                pitch_intent(*input),
                yaw_intent(*input),
            ),
            final(self).transform.position.bits() == vec3_sum(
                old(self).transform.position.bits(),
                movement_delta(
                    final(self).transform.rotation.bits(),
                    strafe_intent(*input),
                    walk_intent(*input),
                ),
            ),
    {
        let mut strafe_k: i32 = 0;
        let mut walk_k: i32 = 0;
        let mut pitch_k: i32 = 0;
        let mut yaw_k: i32 = 0;
        if input.move_forward {
            walk_k = walk_k - 1;
        }
        if input.move_back {
            walk_k = walk_k + 1;
        }
        if input.strafe_left {
            strafe_k = strafe_k - 1;
        }
        if input.strafe_right {
            strafe_k = strafe_k + 1;
        }
        if input.look_up {
            pitch_k = pitch_k + 1;
        }
        if input.look_down {
            pitch_k = pitch_k - 1;
        }
        if input.look_left {
            yaw_k = yaw_k + 1;
        }
        if input.look_right {
            yaw_k = yaw_k - 1;
        }

        let yaw_quat = rotation_y_quat(look_angle(yaw_k));
        let pitch_quat = rotation_x_quat(look_angle(pitch_k));
        let new_rotation = compose_quats(compose_quats(yaw_quat, self.transform.rotation), pitch_quat);
        self.transform.rotation = new_rotation;

        let intent = Vec3Bits { x: unit_component(strafe_k), y: 0, z: unit_component(walk_k) };
        let step = scale_vec3(normalize_or_zero_vec3(intent), MOVE_SPEED_BITS);
        let forward = rotate_vec3(new_rotation, Vec3Bits { x: 0, y: 0, z: ONE_BITS });
        let right = rotate_vec3(new_rotation, Vec3Bits { x: ONE_BITS, y: 0, z: 0 });
        let up = Vec3Bits { x: 0, y: ONE_BITS, z: 0 };
        let delta = add_vec3(
            add_vec3(scale_vec3(forward, step.z), scale_vec3(right, step.x)),
            scale_vec3(up, step.y),
        );
        self.transform.position = add_vec3(self.transform.position, delta);
    }
}

impl Default for Camera {
    /// A camera standing at the origin with the identity orientation.
    fn default() -> (c: Self)
        ensures
            c.transform == Transform::identity(),
    {
        Camera { transform: Transform::default() }
    }
}

/// The look angle for one intent step, as [`look_angle_bits`] states it.
fn look_angle(k: i32) -> (r: u32)
    ensures
        r == look_angle_bits(k as int),
{
    if k > 0 {
        LOOK_SPEED_BITS
    } else if k < 0 {
        LOOK_SPEED_NEG_BITS
    } else {
        0
    }
}

/// The `f32` bit pattern of one intent step, as [`unit_component_bits`]
/// states it.
fn unit_component(k: i32) -> (r: u32)
    ensures
        r == unit_component_bits(k as int),
{
    if k > 0 {
        ONE_BITS
    } else if k < 0 {
        NEG_ONE_BITS
    } else {
        0
    }
}

} // verus!
