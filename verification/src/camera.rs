//! The camera's parameters.

use vstd::prelude::*;
use crate::scalar::Scalar;
use crate::vector::Vec3;

verus! {

/// The encoding of a quarter turn, `90` degrees in radians.
pub const QUARTER_TURN_BITS: u32 = 0x3fc9_0fdb;

/// Where the camera stands, where it looks, and how many pixels it takes.
///
/// The pixel grid in world space is derived from these by arithmetic alone and
/// stays the same until one of them changes.
#[derive(Clone, Copy, Debug, PartialEq, Eq, Structural)]
pub struct Camera {
    pub center: Vec3,
    pub look_at: Vec3,
    pub v_up: Vec3,
    /// The vertical field of view, in radians.
    pub v_fov: Scalar,
    pub width: usize,
    pub height: usize,
}

impl Camera {
    /// The camera that `new` makes for an image of `width` by `height` pixels.
    pub open spec fn standard(width: usize, height: usize) -> Camera {
        let zero = Scalar { bits: 0 };
        let one = Scalar { bits: 0x3f80_0000 };
        Camera {
            center: Vec3 { x: zero, y: zero, z: zero },
            look_at: Vec3 { x: zero, y: zero, z: one.negated() },
            v_up: Vec3 { x: zero, y: one, z: zero },
            v_fov: Scalar { bits: QUARTER_TURN_BITS },
            width,
            height,
        }
    }

    /// A camera at the origin that looks down the negative z axis, y up, with a
    /// vertical field of view of 90 degrees.
    pub fn new(width: usize, height: usize) -> (r: Camera)
        ensures
            r == Camera::standard(width, height),
    {
        Camera {
            center: Vec3::new(Scalar::zero(), Scalar::zero(), Scalar::zero()),
            look_at: Vec3::new(Scalar::zero(), Scalar::zero(), Scalar::one().neg()),
            v_up: Vec3::new(Scalar::zero(), Scalar::one(), Scalar::zero()),
            v_fov: Scalar::from_bits(QUARTER_TURN_BITS),
            width,
            height,
        }
    }
}

} // verus!
