//! The decision core of an offline path tracer.
//!
//! A path tracer estimates, pixel by pixel, the light that a scene of spheres
//! and planes sends to a camera. Most of that work is single-precision
//! arithmetic, which is left to the caller and to the machine. This crate holds
//! what steers the arithmetic, and proves it:
//!
//! - `scalar`: binary32 numbers by their encoding, with the order, the minimum
//!   and maximum and the negation of IEEE 754, stated over the rational that an
//!   encoding stands for;
//! - `guards`: the clamps that keep divisions and square roots in their domain;
//! - `objects`: which crossing of a ray with a primitive counts, which way the
//!   normal is turned, and which primitive is met first;
//! - `integrator`: when a path ends, what an ended path carries, which lobes of a
//!   surface are sampled with how many rays, and how the parts are combined;
//! - `utils`: which random direction is kept, and how a surface's basis is laid
//!   out;
//! - `materials`, `color`, `vector`, `camera`, `settings`: the data of a render.
//!
//! A number crosses the boundary as the 32 bits that `f32::to_bits` gives and
//! `f32::from_bits` takes.

pub mod scalar;
pub mod guards;
pub mod vector;
pub mod color;
pub mod materials;
pub mod settings;
pub mod camera;
pub mod objects;
pub mod integrator;
pub mod utils;

pub use crate::camera::Camera;
pub use crate::integrator::Scene;
pub use crate::settings::Settings;
