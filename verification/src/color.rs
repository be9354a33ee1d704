//! Linear RGB radiance.

use vstd::prelude::*;
use crate::scalar::Scalar;
use crate::vector::Vec3;

verus! {

/// Red, green and blue, linear, each nominally in [0, 1].
#[derive(Clone, Copy, Debug, PartialEq, Eq, Structural)]
pub struct Color(pub Vec3);

impl Color {
    /// No light: all three components positive zero.
    pub open spec fn zero() -> Color {
        Color(Vec3 { x: Scalar { bits: 0 }, y: Scalar { bits: 0 }, z: Scalar { bits: 0 } })
    }

    /// The radiance of the sky: `(1.0, 0.98, 0.99)` scaled by `0.75`, each product
    /// rounded to single precision.
    pub open spec fn sky() -> Color {
        Color(
            Vec3 {
                x: Scalar { bits: 0x3f40_0000 },
                y: Scalar { bits: 0x3f3c_28f6 },
                z: Scalar { bits: 0x3f3e_147b },
            },
        )
    }

    /// What a path that may go no further carries.
    pub fn black() -> (r: Color)
        ensures
            r == Color::zero(),
            r.0.x.scaled() == 0 && r.0.y.scaled() == 0 && r.0.z.scaled() == 0,
    {
        Color(Vec3 { x: Scalar { bits: 0 }, y: Scalar { bits: 0 }, z: Scalar { bits: 0 } })
    }

    /// What a ray that meets nothing carries, whatever its direction.
    pub fn background() -> (r: Color)
        ensures
            r == Color::sky(),
    {
        Color(
            Vec3 {
                x: Scalar { bits: 0x3f40_0000 },
                y: Scalar { bits: 0x3f3c_28f6 },
                z: Scalar { bits: 0x3f3e_147b },
            },
        )
    }
}

} // verus!
