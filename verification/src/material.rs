//! The three surface materials and what each decides when a ray meets it.
//!
//! A scattering yields either nothing (the ray is absorbed) or the colour by
//! which the surface attenuates the light together with the ray that goes on.
//! The directions and dot products on which a material decides are measured by
//! the caller and handed in.

use vstd::prelude::*;
use crate::float::Float;
use crate::ray::{HitRecord, Ray};
use crate::sampling::drand48;
use crate::vector::Vec3;

verus! {

/// A diffuse surface.
#[derive(Clone, Copy, Debug)]
pub struct Lambertian {
    pub albedo: Vec3,
}

/// A mirror-like surface. The larger `fuzz` is, the rougher the mirror; it
/// never exceeds one.
#[derive(Clone, Copy, Debug)]
pub struct Metal {
    pub albedo: Vec3,
    pub fuzz: Float,
}

/// A clear surface such as glass or water, with its refractive index.
#[derive(Clone, Copy, Debug)]
pub struct Dielectric {
    pub ref_idx: Float,
}

/// A surface material. One material serves many spheres and is never changed
/// once made.
#[derive(Clone, Copy, Debug)]
pub enum Material {
    Lambertian(Lambertian),
    Metal(Metal),
    Dielectric(Dielectric),
}

/// The way a ray crosses the surface of a dielectric.
#[derive(Clone, Copy, Debug, PartialEq, Eq, Structural)]
pub enum Crossing {
    /// The ray runs against the surface normal: from outside into the medium.
    Entering,
    /// The ray runs along the surface normal: from the medium to the outside.
    Leaving,
}

/// White: the attenuation of a surface that absorbs nothing.
pub open spec fn white() -> Vec3 {
    Vec3::splat(Float::one())
}

impl Lambertian {
    /// A diffuse surface of the given base colour.
    pub fn new(albedo: Vec3) -> (m: Lambertian)
        ensures
            m.albedo == albedo,
    {
        Lambertian { albedo }
    }

    /// Scatters at the hit `rec` into `direction`, which the caller has drawn
    /// (from the hit point towards the point one normal away, moved by a
    /// random point of the unit ball). A diffuse surface absorbs no ray: the
    /// result is always the albedo, as configured, and the ray from the hit
    /// point into `direction`.
    pub fn scatter(&self, rec: &HitRecord, direction: Vec3) -> (out: Option<(Vec3, Ray)>)
        ensures
            out == Some((self.albedo, Ray { a: rec.p, b: direction })),
    {
        Some((self.albedo, Ray::from(rec.p, direction)))
    }
}

impl Metal {
    /// The fuzz that a mirror is given for a wanted `fuzz`: the wanted one
    /// where it is below one, and one otherwise (so too where `fuzz` is NaN).
    pub open spec fn clamped(fuzz: Float) -> Float {
        if fuzz.below(Float::one()) {
            fuzz
        } else {
            Float::one()
        }
    }

    /// A mirror of the given base colour, with `fuzz` cut off at one.
    pub fn new(albedo: Vec3, fuzz: Float) -> (m: Metal)
        ensures
            m.albedo == albedo,
            m.fuzz == Metal::clamped(fuzz),
            m.fuzz.at_most(Float::one()),
    {
        let fuzz = if fuzz.lt(Float::one()) {
            fuzz
        } else {
            Float::one()
        };
        Metal { albedo, fuzz }
    }

    /// Scatters at the hit `rec` into `direction`, the mirrored and fuzzed
    /// direction that the caller has computed, of which `facing` is the dot
    /// product with the surface normal. The ray goes on exactly where it
    /// leaves the surface (`facing > 0`), attenuated by the albedo; a ray that
    /// would run into the surface is absorbed.
    pub fn scatter(&self, rec: &HitRecord, direction: Vec3, facing: Float) -> (out: Option<
        (Vec3, Ray),
    >)
        ensures
            Float::zero().below(facing) ==> out == Some(
                (self.albedo, Ray { a: rec.p, b: direction }),
            ),
            !Float::zero().below(facing) ==> out.is_none(),
    {
        if facing.gt(Float::zero()) {
            Some((self.albedo, Ray::from(rec.p, direction)))
        } else {
            None
        }
    }
}

/// The refracted direction, where there is one. `discriminant` is
/// `1 - ratio² (1 - cos² θ)` for the ratio of the two refractive indices and the
/// angle of incidence θ, and `bent` the direction that Snell's law gives for
/// it. Below zero no ray can pass (total internal reflection), and a
/// discriminant that is no number lets none pass either.
pub open spec fn refracted(discriminant: Float, bent: Vec3) -> Option<Vec3> {
    if Float::zero().at_most(discriminant) {
        Some(bent)
    } else {
        None
    }
}

/// Decides whether the ray is refracted: see [`refracted`].
pub fn refract(discriminant: Float, bent: Vec3) -> (out: Option<Vec3>)
    ensures
        out == refracted(discriminant, bent),
        out.is_some() <==> Float::zero().at_most(discriminant),
{
    if discriminant.ge(Float::zero()) {
        Some(bent)
    } else {
        None
    }
}

impl Dielectric {
    /// A clear medium of refractive index `ir`.
    pub fn new(ir: Float) -> (m: Dielectric)
        ensures
            m.ref_idx == ir,
    {
        Dielectric { ref_idx: ir }
    }

    /// The way a ray crosses the surface, from `facing`, the dot product of
    /// its direction with the surface normal.
    pub open spec fn crossing_of(facing: Float) -> Crossing {
        if Float::zero().below(facing) {
            Crossing::Leaving
        } else {
            Crossing::Entering
        }
    }

    /// Tells whether the ray enters or leaves the medium. On leaving, the
    /// caller turns the normal round and takes the refractive index itself as
    /// the ratio of indices; on entering, it keeps the normal and takes the
    /// inverse.
    pub fn crossing(&self, facing: Float) -> (c: Crossing)
        ensures
            c == Dielectric::crossing_of(facing),
    {
        if facing.gt(Float::zero()) {
            Crossing::Leaving
        } else {
            Crossing::Entering
        }
    }

    /// The direction in which the ray goes on: reflected where no refraction
    /// is possible, and otherwise reflected exactly where the draw falls below
    /// the reflectance.
    pub open spec fn outgoing(
        reflected: Vec3,
        refracted: Option<Vec3>,
        reflectance: Float,
        draw: Float,
    ) -> Vec3 {
        match refracted {
            None => reflected,
            Some(bent) => if draw.below(reflectance) {
                reflected
            } else {
                bent
            },
        }
    }

    /// Scatters at the hit `rec`, given the number that was drawn. `reflected`
    /// is the mirrored direction, `refracted` what [`refract`] gave,
    /// `reflectance` the share of light that the surface reflects at this angle
    /// (Schlick's approximation) and `draw` a number drawn uniformly from
    /// `[0, 1)`. A clear surface absorbs nothing: the result is always white
    /// and a ray from the hit point. Where nothing refracts the ray is
    /// reflected; otherwise it is reflected where `draw < reflectance`, and so
    /// with the probability `reflectance`, and refracted else.
    pub fn scatter_with(
        &self,
        rec: &HitRecord,
        reflected: Vec3,
        refracted: Option<Vec3>,
        reflectance: Float,
        draw: Float,
    ) -> (out: Option<(Vec3, Ray)>)
        ensures
            out == Some(
                (
                    white(),
                    Ray {
                        a: rec.p,
                        b: Dielectric::outgoing(reflected, refracted, reflectance, draw),
                    },
                ),
            ),
    {
        let direction = match refracted {
            None => reflected,
            Some(bent) => if draw.lt(reflectance) {
                reflected
            } else {
                bent
            },
        };
        Some((Vec3::uniform(Float::one()), Ray::from(rec.p, direction)))
    }

    /// Scatters at the hit `rec`: draws a number from `[0, 1)` and decides by
    /// it as [`Dielectric::scatter_with`] does. Whatever is drawn, the result is
    /// white and a ray from the hit point, reflected or refracted. The ray is
    /// reflected where nothing refracts or the reflectance is one or more, and
    /// refracted where something refracts and the reflectance is not above
    /// zero.
    pub fn scatter(
        &self,
        rec: &HitRecord,
        reflected: Vec3,
        refracted: Option<Vec3>,
        reflectance: Float,
    ) -> (out: Option<(Vec3, Ray)>)
        ensures
            out matches Some((attenuation, ray)) && {
                &&& attenuation == white()
                &&& ray.a == rec.p
                &&& exists|draw: Float|
                    Float::zero().at_most(draw) && draw.below(Float::one()) && ray.b
                        == #[trigger] Dielectric::outgoing(reflected, refracted, reflectance, draw)
            },
    {
        let draw = drand48();
        self.scatter_with(rec, reflected, refracted, reflectance, draw)
    }

    /// A ray that can be refracted is not forced to reflect: every draw that is
    /// not below the reflectance sends it on refracted, and every draw below
    /// the reflectance reflects it.
    pub proof fn lemma_refraction_open(
        discriminant: Float,
        reflected: Vec3,
        bent: Vec3,
        reflectance: Float,
        draw: Float,
    )
        requires
            Float::zero().at_most(discriminant),
        ensures
            Dielectric::outgoing(reflected, refracted(discriminant, bent), reflectance, draw) == (
            if draw.below(reflectance) {
                reflected
            } else {
                bent
            }),
    {
    }

    /// Without refraction the ray is reflected, whatever is drawn.
    pub proof fn lemma_total_reflection(
        discriminant: Float,
        reflected: Vec3,
        bent: Vec3,
        reflectance: Float,
        draw: Float,
    )
        requires
            !Float::zero().at_most(discriminant),
        ensures
            Dielectric::outgoing(reflected, refracted(discriminant, bent), reflectance, draw)
                == reflected,
    {
    }
}

} // verus!
