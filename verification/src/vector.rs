//! Triples and three-by-three tables of scalars.
//!
//! These carry coordinates between the arithmetic, which is done elsewhere, and the
//! decisions made here. The only operations are those that are exact on encodings:
//! building, reading and flipping signs.

use vstd::prelude::*;
use crate::scalar::Scalar;

verus! {

/// A point, direction or RGB triple.
#[derive(Clone, Copy, Debug, PartialEq, Eq, Structural)]
pub struct Vec3 {
    pub x: Scalar,
    pub y: Scalar,
    pub z: Scalar,
}

impl Vec3 {
    /// The vector with the sign bit of each component flipped.
    pub open spec fn negated(self) -> Vec3 {
        Vec3 { x: self.x.negated(), y: self.y.negated(), z: self.z.negated() }
    }

    pub fn new(x: Scalar, y: Scalar, z: Scalar) -> (r: Vec3)
        ensures
            r == (Vec3 { x, y, z }),
    {
        Vec3 { x, y, z }
    }

    /// The vector whose components have the given encodings.
    pub fn from_bits(bits: [u32; 3]) -> (r: Vec3)
        ensures
            r.x.bits == bits[0],
            r.y.bits == bits[1],
            r.z.bits == bits[2],
    {
        Vec3 {
            x: Scalar::from_bits(bits[0]),
            y: Scalar::from_bits(bits[1]),
            z: Scalar::from_bits(bits[2]),
        }
    }

    /// The encodings of the three components, `x` first.
    pub fn to_bits(self) -> (r: [u32; 3])
        ensures
            r[0] == self.x.bits,
            r[1] == self.y.bits,
            r[2] == self.z.bits,
    {
        [self.x.to_bits(), self.y.to_bits(), self.z.to_bits()]
    }

    /// The opposite vector. Negating twice gives the vector back, bit for bit.
    pub fn neg(self) -> (r: Vec3)
        ensures
            r == self.negated(),
            r.negated() == self,
            r.x.scaled() == -self.x.scaled(),
            r.y.scaled() == -self.y.scaled(),
            r.z.scaled() == -self.z.scaled(),
    {
        Vec3 { x: self.x.neg(), y: self.y.neg(), z: self.z.neg() }
    }
}

/// A three-by-three table, stored row by row.
#[derive(Clone, Copy, Debug, PartialEq, Eq, Structural)]
pub struct Mat3 {
    pub top: Vec3,
    pub middle: Vec3,
    pub bottom: Vec3,
}

impl Mat3 {
    /// The first column, top to bottom.
    pub open spec fn column_x(self) -> Vec3 {
        Vec3 { x: self.top.x, y: self.middle.x, z: self.bottom.x }
    }

    /// The second column, top to bottom.
    pub open spec fn column_y(self) -> Vec3 {
        Vec3 { x: self.top.y, y: self.middle.y, z: self.bottom.y }
    }

    /// The third column, top to bottom.
    pub open spec fn column_z(self) -> Vec3 {
        Vec3 { x: self.top.z, y: self.middle.z, z: self.bottom.z }
    }

    /// The table whose columns are `u`, `v` and `w`.
    pub fn from_columns(u: Vec3, v: Vec3, w: Vec3) -> (r: Mat3)
        ensures
            r.column_x() == u,
            r.column_y() == v,
            r.column_z() == w,
    {
        Mat3 {
            top: Vec3 { x: u.x, y: v.x, z: w.x },
            middle: Vec3 { x: u.y, y: v.y, z: w.y },
            bottom: Vec3 { x: u.z, y: v.z, z: w.z },
        }
    }
}

} // verus!
