//! The light-transport integrator's decisions.
//!
//! The radiance along a ray is estimated by following the ray to a surface and
//! sampling the light that arrives there, ray by ray, to a fixed depth. The
//! estimate's arithmetic is done by the caller. What is decided here is the
//! course of the estimate: when a path ends, what a ray that ends carries, which
//! lobes of a surface are sampled and with how many rays, and how what comes
//! back is put together.

use vstd::prelude::*;
use crate::color::Color;
use crate::materials::Bsdf;
use crate::objects::list::{lemma_nearest_hit, nearest, List};
use crate::objects::{HitInfo, Interval};
use crate::scalar::{Scalar, INFINITY_BITS};
use crate::settings::Settings;

verus! {

/// The encoding of `0.0001`: hits nearer than this are taken for the surface
/// that the ray has just left.
pub const NEAREST_HIT_BITS: u32 = 0x38d1_b717;

/// The distances at which a ray of the integrator is searched for hits: from
/// `0.0001` to infinity, both left out.
pub open spec fn reach() -> Interval {
    Interval { start: Scalar { bits: NEAREST_HIT_BITS }, end: Scalar { bits: INFINITY_BITS } }
}

/// What is known of the radiance along a ray once the ray has been followed.
#[derive(Clone, Copy, Debug)]
pub enum Radiance<'a> {
    /// The radiance itself: the path was cut off, or the ray left the scene.
    Known(Color),
    /// The ray met a surface. Its radiance is what the surface emits and what
    /// the bounce at `hit` gathers from rays that may meet `depth` surfaces more.
    Surface { hit: HitInfo<'a>, depth: usize },
}

/// The primitives of a scene as one ray meets them.
pub struct Scene<'a> {
    pub world: List<'a>,
}

/// The radiance of a path that may meet no further surface: black, and nothing
/// while `depth` surfaces are left.
pub fn cutoff(depth: usize) -> (r: Option<Color>)
    ensures
        depth == 0 ==> r == Some(Color::zero()),
        depth > 0 ==> r is None,
{
    if depth == 0 {
        Some(Color::black())
    } else {
        None
    }
}

impl<'a> Scene<'a> {
    /// What is known of the radiance along the ray, `depth` being the number of
    /// surfaces that its path may still meet.
    pub open spec fn radiance(self, depth: usize) -> Radiance<'a> {
        if depth == 0 {
            Radiance::Known(Color::zero())
        } else {
            match nearest(self.world.objects@, reach()) {
                None => Radiance::Known(Color::sky()),
                Some(hit) => Radiance::Surface { hit, depth: (depth - 1) as usize },
            }
        }
    }

    /// Follows the ray into the scene.
    ///
    /// With `depth == 0` the path is cut off and carries no light, whatever the
    /// scene holds. A ray that meets nothing carries the radiance of the sky,
    /// whatever its direction. Otherwise the ray's radiance is left to the bounce
    /// at the nearest surface, whose own rays have one surface fewer to go.
    pub fn ray_color(&self, depth: usize) -> (r: Radiance<'a>)
        ensures
            r == self.radiance(depth),
            depth == 0 ==> r == Radiance::Known(Color::zero()),
            r matches Radiance::Surface { hit, depth: rest } ==> rest < depth && reach().holds(
                hit.distance,
            ),
    {
        match cutoff(depth) {
            Some(black) => Radiance::Known(black),
            None => {
                let range = Interval::new(
                    Scalar::from_bits(NEAREST_HIT_BITS),
                    Scalar::infinity(),
                );
                match self.world.hit(range) {
                    None => Radiance::Known(Color::background()),
                    Some(hit) => Radiance::Surface { hit, depth: depth - 1 },
                }
            },
        }
    }
}

/// Depth termination: a path that may meet no surface carries no light,
/// whatever the scene holds.
pub proof fn lemma_depth_zero_is_black(scene: Scene)
    ensures
        scene.radiance(0) == Radiance::Known(Color::zero()),
        Color::zero().0.x.scaled() == 0,
        Color::zero().0.y.scaled() == 0,
        Color::zero().0.z.scaled() == 0,
{
}

/// Background: a ray that hits none of the primitives carries the radiance of
/// the sky, the same for every such ray and every depth above zero.
pub proof fn lemma_miss_is_sky(scene: Scene, depth: usize)
    requires
        depth > 0,
        forall|i: int|
            0 <= i < scene.world.objects@.len() ==> (#[trigger] scene.world.objects@[i].hit_in(
                reach(),
            )) is None,
    ensures
        scene.radiance(depth) == Radiance::Known(Color::sky()),
{
    lemma_nearest_hit(scene.world.objects@, reach());
}

/// What the integrator does at a surface.
#[derive(Clone, Copy, Debug, PartialEq, Eq, Structural)]
pub struct Bounce {
    /// Whether the reflecting lobes are evaluated. Where they are not, the
    /// reflected radiance is black.
    pub reflect: bool,
    /// Rays that sample the specular lobe.
    pub specular_rays: usize,
    /// Rays that sample the diffuse lobe.
    pub diffuse_rays: usize,
    /// Whether one ray is sent on through the surface. Where none is, the
    /// refracted radiance is black.
    pub refract: bool,
    /// Whether reflected and refracted radiance are blended by the transmission
    /// weight. Where they are not, the reflected radiance stands alone.
    pub blend: bool,
}

/// Whether light cannot pass the surface at this angle. `grazing` is the ratio
/// of the indices of refraction times the sine of the angle of incidence.
pub fn total_internal_reflection(grazing: Scalar) -> (r: bool)
    ensures
        r == (Scalar { bits: 0x3f80_0000 }).below(grazing),
{
    grazing.gt(Scalar::one())
}

/// Whether this sample is reflected: `coin`, drawn uniformly from [0, 1), fell
/// below the Fresnel reflectance.
pub fn fresnel_reflects(reflectance: Scalar, coin: Scalar) -> (r: bool)
    ensures
        r == coin.below(reflectance),
{
    reflectance.gt(coin)
}

impl Bsdf {
    /// The bounce at a surface of this material. `reflect_only` says that the
    /// sample cannot or does not pass the surface: there is total internal
    /// reflection, or the Fresnel coin chose reflection.
    pub open spec fn bounce_of(self, settings: Settings, reflect_only: bool) -> Bounce {
        let one = Scalar { bits: 0x3f80_0000 };
        let zero = Scalar { bits: 0 };
        let reflect = self.transmission.weight.below(one) || reflect_only;
        Bounce {
            reflect,
            specular_rays: if reflect && zero.below(self.metallic) {
                settings.rays_per_specular
            } else {
                0
            },
            diffuse_rays: if reflect && self.metallic.below(one) {
                settings.rays_per_diffuse
            } else {
                0
            },
            refract: zero.below(self.transmission.weight) && !reflect_only,
            blend: !reflect_only,
        }
    }

    /// Decides the bounce.
    ///
    /// The reflecting lobes are evaluated when the transmission weight is below
    /// one or the sample is reflected anyway. Of these the specular lobe gets its
    /// rays only with `metallic > 0`, the diffuse lobe only with `metallic < 1`:
    /// `metallic` gates the lobes and does not weigh them. One ray is refracted
    /// when the transmission weight is above zero and the sample is not reflected
    /// anyway.
    pub fn bounce(&self, settings: &Settings, reflect_only: bool) -> (r: Bounce)
        ensures
            r == self.bounce_of(*settings, reflect_only),
    {
        let reflect = self.transmission.weight.lt(Scalar::one()) || reflect_only;
        let specular_rays = if reflect && self.metallic.gt(Scalar::zero()) {
            settings.rays_per_specular
        } else {
            0
        };
        let diffuse_rays = if reflect && self.metallic.lt(Scalar::one()) {
            settings.rays_per_diffuse
        } else {
            0
        };
        let refract = self.transmission.weight.gt(Scalar::zero()) && !reflect_only;
        Bounce { reflect, specular_rays, diffuse_rays, refract, blend: !reflect_only }
    }
}

} // verus!
