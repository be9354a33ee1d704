//! Surface materials.

use vstd::prelude::*;
use crate::color::Color;
use crate::scalar::Scalar;

verus! {

/// How much of the light that is not reflected passes through the surface.
#[derive(Clone, Copy, Debug, PartialEq, Eq, Structural)]
pub struct Transmission {
    /// In [0, 1].
    pub weight: Scalar,
}

/// Light that the surface gives off by itself.
#[derive(Clone, Copy, Debug, PartialEq, Eq, Structural)]
pub struct Emission {
    pub color: Color,
    /// Not negative.
    pub strength: Scalar,
}

/// A surface material in the manner of a principled BSDF.
///
/// Materials are shared: primitives and hits hold them by reference, and nothing
/// changes one during a render.
#[derive(Clone, Copy, Debug, PartialEq, Eq, Structural)]
pub struct Bsdf {
    pub base_color: Color,
    /// In [0, 1]. Gates the lobes that are sampled; it does not weigh them.
    pub metallic: Scalar,
    /// In [0, 1].
    pub roughness: Scalar,
    /// Index of refraction, positive.
    pub ior: Scalar,
    pub transmission: Transmission,
    pub emission: Emission,
}

} // verus!
