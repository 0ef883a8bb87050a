//! A scale/rotation/translation triple producing a 4x4 model matrix.

use vstd::prelude::*;
use crate::vecmath::{Vec3Bits, QuatBits, ONE_BITS, srt_matrix, mat4_from_srt};

verus! {

/// A local-to-world transform. The matrix it produces always applies scale
/// first, then rotation, then translation.
#[derive(Clone, Copy, Debug, PartialEq, Eq, Structural)]
pub struct Transform {
    pub scale: Vec3Bits,
    pub position: Vec3Bits,
    pub rotation: QuatBits,
}

impl Transform {
    /// The transform that leaves every point in place: unit scale, identity
    /// rotation, zero translation.
    pub open spec fn identity() -> Transform {
        Transform {
            scale: (Vec3Bits { x: ONE_BITS, y: ONE_BITS, z: ONE_BITS }),
            position: (Vec3Bits { x: 0, y: 0, z: 0 }),
            rotation: QuatBits::identity(),
        }
    }

    /// The column-major world matrix of this transform:
    /// `Translation(position) * Rotation(rotation) * Scale(scale)`.
    pub open spec fn matrix_bits(self) -> Seq<u32> {
        srt_matrix(self.scale.bits(), self.rotation.bits(), self.position.bits())
    }

    /// Compose scale, rotation and translation into the world matrix. The
    /// matrix's fourth column carries the translation unchanged, so the
    /// matrix applied to the origin yields exactly `position`.
    pub fn to_matrix(&self) -> (m: [u32; 16])
        ensures
            m@ == self.matrix_bits(),
            m@[12] == self.position.x,
            m@[13] == self.position.y,
            m@[14] == self.position.z,
    {
        mat4_from_srt(self.scale, self.rotation, self.position)
    }
}

impl Default for Transform {
    /// The identity transform.
    fn default() -> (t: Self)
        ensures
            t == Transform::identity(),
    {
        Transform {
            scale: Vec3Bits { x: ONE_BITS, y: ONE_BITS, z: ONE_BITS },
            position: Vec3Bits { x: 0, y: 0, z: 0 },
            rotation: QuatBits { x: 0, y: 0, z: 0, w: ONE_BITS },
        }
    }
}

} // verus!
