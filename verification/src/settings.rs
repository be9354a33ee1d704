//! How much work a render spends.

use vstd::prelude::*;

verus! {

/// The sampling budget of a render.
///
/// Cost grows as `(rays_per_specular + rays_per_diffuse)` to the power `depth`, so
/// all of them are kept small.
#[derive(Clone, Copy, Debug, PartialEq, Eq, Structural)]
pub struct Settings {
    /// Primary rays averaged into one pixel.
    pub rays_per_px: usize,
    /// Rays that sample the specular lobe at each hit.
    pub rays_per_specular: usize,
    /// Rays that sample the diffuse lobe at each hit.
    pub rays_per_diffuse: usize,
    /// The longest path, counted in surfaces met.
    pub depth: usize,
}

impl Settings {
    pub fn rays_per_px(self, rays_per_px: usize) -> (r: Settings)
        ensures
            r == (Settings { rays_per_px, ..self }),
    {
        Settings { rays_per_px, ..self }
    }

    pub fn rays_per_specular(self, rays_per_specular: usize) -> (r: Settings)
        ensures
            r == (Settings { rays_per_specular, ..self }),
    {
        Settings { rays_per_specular, ..self }
    }

    pub fn rays_per_diffuse(self, rays_per_diffuse: usize) -> (r: Settings)
        ensures
            r == (Settings { rays_per_diffuse, ..self }),
    {
        Settings { rays_per_diffuse, ..self }
    }

    /// Sets the rays of both lobes at once.
    pub fn rays_per_hit(self, rays_per_hit: usize) -> (r: Settings)
        ensures
            r == (Settings {
                rays_per_specular: rays_per_hit,
                rays_per_diffuse: rays_per_hit,
                ..self
            }),
    {
        Settings { rays_per_specular: rays_per_hit, rays_per_diffuse: rays_per_hit, ..self }
    }

    pub fn depth(self, depth: usize) -> (r: Settings)
        ensures
            r == (Settings { depth, ..self }),
    {
        Settings { depth, ..self }
    }
}

impl Default for Settings {
    /// Two rays per pixel and per lobe, paths of at most eight surfaces.
    fn default() -> (r: Settings)
        ensures
            r == (Settings { rays_per_px: 2, rays_per_specular: 2, rays_per_diffuse: 2, depth: 8 }),
    {
        Settings { rays_per_px: 2, rays_per_specular: 2, rays_per_diffuse: 2, depth: 8 }
    }
}

} // verus!
