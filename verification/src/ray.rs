//! Rays, what is recorded where one meets a surface, and what a ray
//! contributes to a pixel.

use vstd::prelude::*;
use std::sync::Arc;
use crate::float::Float;
use crate::hittable::{is_nearest, nearest, none_hit, Nearest, Roots};
use crate::material::{Lambertian, Material};
use crate::vector::Vec3;

verus! {

/// The bits of the grey level of the material that a fresh record carries.
pub const PLACEHOLDER_GREY_BITS: u32 = 0x3e4c_cccd;

/// The bits of the smallest parameter at which a hit counts, one thousandth:
/// a ray that leaves a surface must not hit that surface again at once.
pub const NEAREST_BITS: u32 = 0x3a83_126f;

/// The bits of the parameter below which a hit counts: positive infinity, so
/// that every finite parameter counts.
pub const FARTHEST_BITS: u32 = 0x7f80_0000;

/// A half-line: the points `a + t b` for the parameters `t`.
#[derive(Clone, Copy, Debug)]
pub struct Ray {
    /// The origin.
    pub a: Vec3,
    /// The direction.
    pub b: Vec3,
}

impl Ray {
    /// The ray from the origin with no direction.
    pub fn new() -> (r: Ray)
        ensures
            r.a == Vec3::splat(Float::zero()),
            r.b == Vec3::splat(Float::zero()),
    {
        Ray { a: Vec3::new(), b: Vec3::new() }
    }

    /// The ray from `a` in the direction `b`.
    pub fn from(a: Vec3, b: Vec3) -> (r: Ray)
        ensures
            r == (Ray { a, b }),
    {
        Ray { a, b }
    }

    /// Where the ray starts.
    pub fn origin(&self) -> (v: Vec3)
        ensures
            v == self.a,
    {
        self.a
    }

    /// Where the ray points.
    pub fn direction(&self) -> (v: Vec3)
        ensures
            v == self.b,
    {
        self.b
    }
}

/// What a ray contributes to its pixel.
#[derive(Clone, Copy, Debug)]
pub enum Radiance {
    /// The light of the sky in the given direction: the ray met nothing.
    Sky(Vec3),
    /// No light: the ray was absorbed, or its path was cut off.
    Black,
    /// The light that `ray` contributes, each channel multiplied by that of
    /// `attenuation`. `depth` is the depth at which `ray` is to be followed.
    Bounce { attenuation: Vec3, ray: Ray, depth: i32 },
}

impl Ray {
    /// The smallest parameter at which a hit counts.
    pub open spec fn nearest_seen() -> Float {
        Float { bits: NEAREST_BITS }
    }

    /// The parameter below which a hit counts.
    pub open spec fn farthest_seen() -> Float {
        Float { bits: FARTHEST_BITS }
    }

    /// The hit that a ray of light sees in a scene, from the solutions of the
    /// ray with each sphere: the nearest one whose parameter lies above one
    /// thousandth and is finite.
    pub fn seen(candidates: &Vec<Roots>) -> (out: Option<Nearest>)
        ensures
            out.is_none() <==> none_hit(
                candidates@,
                candidates@.len() as int,
                Ray::nearest_seen(),
                Ray::farthest_seen(),
            ),
            out matches Some(best) ==> is_nearest(
                candidates@,
                candidates@.len() as int,
                Ray::nearest_seen(),
                Ray::farthest_seen(),
                best,
            ),
    {
        nearest(candidates, Float::from_bits(NEAREST_BITS), Float::from_bits(FARTHEST_BITS))
    }

    /// What this ray contributes at `depth` of a path that is cut off at
    /// `max_depth`. `hit` is `None` where the ray met nothing in the scene, and
    /// otherwise holds what the material at the hit scattered: nothing, or an
    /// attenuation and the ray that goes on. A ray that met nothing sees the
    /// sky, at every depth. A ray that was absorbed brings no light, and a
    /// scattered one hands on to the next ray only below the greatest depth.
    pub open spec fn radiance(self, hit: Option<Option<(Vec3, Ray)>>, depth: int, max_depth: int) -> Radiance {
        match hit {
            None => Radiance::Sky(self.b),
            Some(None) => Radiance::Black,
            Some(Some((attenuation, ray))) => if depth < max_depth {
                Radiance::Bounce { attenuation, ray, depth: (depth + 1) as i32 }
            } else {
                Radiance::Black
            },
        }
    }

    /// Decides what this ray contributes: see [`Ray::radiance`]. The caller
    /// follows a `Bounce` by asking again for its ray at its depth, and
    /// evaluates the sky for the direction of a `Sky`.
    pub fn color(&self, hit: Option<Option<(Vec3, Ray)>>, depth: i32, max_depth: i32) -> (out: Radiance)
        ensures
            out == self.radiance(hit, depth as int, max_depth as int),
            hit.is_none() ==> out == Radiance::Sky(self.b),
            out matches Radiance::Bounce { depth: next, .. } ==> depth < max_depth && next == depth + 1,
    {
        match hit {
            None => Radiance::Sky(self.b),
            Some(None) => Radiance::Black,
            Some(Some((attenuation, ray))) => if depth < max_depth {
                Radiance::Bounce { attenuation, ray, depth: depth + 1 }
            } else {
                Radiance::Black
            },
        }
    }

    /// Beyond the greatest depth nothing is followed: at `max_depth` or deeper
    /// a ray that met a surface brings no light, whatever the material
    /// scattered.
    pub proof fn lemma_cut_off(self, scattered: Option<(Vec3, Ray)>, depth: int, max_depth: int)
        requires
            depth >= max_depth,
        ensures
            self.radiance(Some(scattered), depth, max_depth) == Radiance::Black,
    {
    }

    /// A path is finite: where every one of `rays`, the first at depth zero
    /// and each further one a depth deeper, is scattered and followed, there
    /// are at most `max_depth` of them.
    pub proof fn lemma_path_bounded(rays: Seq<Ray>, hits: Seq<Option<Option<(Vec3, Ray)>>>, max_depth: int)
        requires
            0 <= max_depth <= i32::MAX,
            rays.len() == hits.len(),
            forall|i: int|
                0 <= i < rays.len() ==> #[trigger] rays[i].radiance(hits[i], i, max_depth) is Bounce,
        ensures
            rays.len() <= max_depth,
    {
        if rays.len() > 0 {
            let last = rays.len() - 1;
            assert(rays[last].radiance(hits[last], last, max_depth) is Bounce);
        }
    }
}

/// What is known of the place where a ray met a surface.
#[derive(Debug)]
pub struct HitRecord {
    /// The parameter of the ray at the place.
    pub t: Float,
    /// The place.
    pub p: Vec3,
    /// The surface normal there, of length one.
    pub normal: Vec3,
    /// The material of the surface.
    pub material: Arc<Material>,
}

impl HitRecord {
    /// The material that a fresh record carries: a grey diffuse surface.
    pub open spec fn placeholder() -> Material {
        Material::Lambertian(
            Lambertian { albedo: Vec3::splat(Float { bits: PLACEHOLDER_GREY_BITS }) },
        )
    }

    /// A record of no hit yet: parameter zero at the origin, no normal, and a
    /// grey diffuse material.
    pub fn new() -> (rec: HitRecord)
        ensures
            rec.t == Float::zero(),
            rec.p == Vec3::splat(Float::zero()),
            rec.normal == Vec3::splat(Float::zero()),
            *rec.material == HitRecord::placeholder(),
    {
        let grey = Vec3::uniform(Float::from_bits(PLACEHOLDER_GREY_BITS));
        HitRecord {
            t: Float::zero(),
            p: Vec3::new(),
            normal: Vec3::new(),
            material: Arc::new(Material::Lambertian(Lambertian::new(grey))),
        }
    }
}

} // verus!
