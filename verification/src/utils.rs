//! Decisions of the sampling routines.

use vstd::prelude::*;
use crate::scalar::Scalar;
use crate::vector::{Mat3, Vec3};

verus! {

/// The encoding of `0.00001`: how far the normal's `z` must stay from one in
/// magnitude for the basis to be built around the z axis.
pub const POLE_MARGIN_BITS: u32 = 0x3727_c5ac;

/// Whether a point drawn from the cube lies in the unit ball, its squared
/// length given: such a point is kept, any other is drawn again.
pub fn in_unit_ball(length_squared: Scalar) -> (r: bool)
    ensures
        r == length_squared.at_most(Scalar { bits: 0x3f80_0000 }),
{
    length_squared.le(Scalar::one())
}

/// The direction `p` or its opposite, whichever lies in the hemisphere around
/// a normal with which `p` has the dot product `p_dot_n`: `p` where that is
/// above zero, else the opposite.
pub fn random_hemisphere_vector(p: Vec3, p_dot_n: Scalar) -> (r: Vec3)
    ensures
        r == (if (Scalar { bits: 0 }).below(p_dot_n) {
            p
        } else {
            p.negated()
        }),
{
    if p_dot_n.gt(Scalar::zero()) {
        p
    } else {
        p.neg()
    }
}

/// The half vector `h`, turned to the side of the surface from which the view
/// direction comes: negated where the view direction's `z` in tangent space is
/// zero or below.
pub fn half_vector_toward(h: Vec3, view_z: Scalar) -> (r: Vec3)
    ensures
        r == (if view_z.at_most(Scalar { bits: 0 }) {
            h.negated()
        } else {
            h
        }),
{
    if view_z.le(Scalar::zero()) {
        h.neg()
    } else {
        h
    }
}

/// Whether the basis can be built around the z axis. `margin` is one less the
/// magnitude of the normal's `z`; the normal is far enough from the poles when
/// that is above `0.00001`.
pub fn away_from_pole(margin: Scalar) -> (r: bool)
    ensures
        r == (Scalar { bits: POLE_MARGIN_BITS }).below(margin),
{
    margin.gt(Scalar::from_bits(POLE_MARGIN_BITS))
}

/// The components of `v` in the order z, x, y.
pub open spec fn rotated(v: Vec3) -> Vec3 {
    Vec3 { x: v.z, y: v.x, z: v.y }
}

/// The components of `v` in the order y, z, x, which undoes `rotated`.
pub open spec fn unrotated(v: Vec3) -> Vec3 {
    Vec3 { x: v.y, y: v.z, z: v.x }
}

/// The normal as the tangent vectors are computed from it: as it is where it
/// is away from the poles, else with its components in the order z, x, y, so
/// that the component near one in magnitude no longer stands last.
pub open spec fn axis_of(nor: Vec3, upright: bool) -> Vec3 {
    if upright {
        nor
    } else {
        rotated(nor)
    }
}

/// The table whose columns are `uu`, `vv` and `axis`, each with its components
/// put back in their places where the axis was rotated.
pub open spec fn basis_of(uu: Vec3, vv: Vec3, axis: Vec3, upright: bool) -> Mat3 {
    if upright {
        Mat3 {
            top: Vec3 { x: uu.x, y: vv.x, z: axis.x },
            middle: Vec3 { x: uu.y, y: vv.y, z: axis.y },
            bottom: Vec3 { x: uu.z, y: vv.z, z: axis.z },
        }
    } else {
        Mat3 {
            top: Vec3 { x: uu.y, y: vv.y, z: axis.y },
            middle: Vec3 { x: uu.z, y: vv.z, z: axis.z },
            bottom: Vec3 { x: uu.x, y: vv.x, z: axis.x },
        }
    }
}

/// The axis around which the tangent vectors of a surface are computed.
pub fn basis_axis(nor: Vec3, upright: bool) -> (r: Vec3)
    ensures
        r == axis_of(nor, upright),
{
    if upright {
        nor
    } else {
        Vec3 { x: nor.z, y: nor.x, z: nor.y }
    }
}

/// The orthonormal basis of a surface from the tangents `uu` and `vv` and the
/// axis that they were computed from.
///
/// Its columns are the two tangents and the normal. Where the axis was rotated
/// the rows are put back in their places, so the columns are vectors of the
/// world either way.
pub fn get_basis(uu: Vec3, vv: Vec3, axis: Vec3, upright: bool) -> (r: Mat3)
    ensures
        r == basis_of(uu, vv, axis, upright),
        upright ==> r.column_x() == uu && r.column_y() == vv && r.column_z() == axis,
        !upright ==> r.column_x() == unrotated(uu) && r.column_y() == unrotated(vv)
            && r.column_z() == unrotated(axis),
{
    if upright {
        Mat3::from_columns(uu, vv, axis)
    } else {
        Mat3 {
            top: Vec3 { x: uu.y, y: vv.y, z: axis.y },
            middle: Vec3 { x: uu.z, y: vv.z, z: axis.z },
            bottom: Vec3 { x: uu.x, y: vv.x, z: axis.x },
        }
    }
}

/// The third column of the basis is the surface normal, bit for bit, whichever
/// way the basis was built and whatever the tangents are.
pub proof fn lemma_basis_keeps_normal(nor: Vec3, uu: Vec3, vv: Vec3, upright: bool)
    ensures
        basis_of(uu, vv, axis_of(nor, upright), upright).column_z() == nor,
{
}

} // verus!
