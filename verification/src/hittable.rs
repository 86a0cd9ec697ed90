//! Spheres, scenes, and the search for the nearest place where a ray meets
//! one.
//!
//! Where a ray `o + t d` meets a sphere of centre `C` and radius `r` is told by
//! the quadratic `a t² + 2 b t + c = 0` with `a = d·d`, `b = (o - C)·d` and
//! `c = (o - C)·(o - C) - r²`. The caller solves it; this module decides which
//! root, of which sphere, is the hit.

use vstd::prelude::*;
use std::sync::Arc;
use crate::config::ConfigError;
use crate::float::Float;
use crate::material::Material;
use crate::vector::Vec3;

verus! {

/// What solving the quadratic of one ray and one sphere gave: the discriminant
/// `b² - a c` and the two roots, the smaller one first. Where the discriminant
/// is below zero the ray misses the sphere and the roots mean nothing.
#[derive(Clone, Copy, Debug)]
pub struct Roots {
    discriminant: Float,
    near: Float,
    far: Float,
}

/// A sphere: its centre, its radius and the material of its surface. The
/// radius is never zero. It may be negative: the surface is the same, and its
/// normal, the vector from the centre to the hit divided by the radius, then
/// points to the centre, which makes the inside of a hollow shell.
#[derive(Debug)]
pub struct Sphere {
    center: Vec3,
    radius: Float,
    material: Arc<Material>,
}

/// A scene: spheres in the order in which they were added.
#[derive(Debug)]
pub struct HittableList {
    list: Vec<Sphere>,
}

/// The nearest hit of a scene: which sphere, and at which parameter of the
/// ray.
#[derive(Clone, Copy, Debug)]
pub struct Nearest {
    /// The place of the sphere in the scene.
    pub index: usize,
    /// The parameter of the ray at the hit.
    pub t: Float,
}

impl Roots {
    #[verifier::type_invariant]
    closed spec fn ordered(self) -> bool {
        !self.far.below(self.near)
    }

    /// The discriminant.
    pub closed spec fn spec_discriminant(&self) -> Float {
        self.discriminant
    }

    /// The root that is tried first.
    pub closed spec fn spec_near(&self) -> Float {
        self.near
    }

    /// The root that is tried second.
    pub closed spec fn spec_far(&self) -> Float {
        self.far
    }

    /// The smaller of two roots: the second where it is below the first, and
    /// the first otherwise.
    pub open spec fn lesser(first: Float, second: Float) -> Float {
        if second.below(first) {
            second
        } else {
            first
        }
    }

    /// The root that [`Roots::lesser`] leaves.
    pub open spec fn greater(first: Float, second: Float) -> Float {
        if second.below(first) {
            first
        } else {
            second
        }
    }

    /// The solution with the given discriminant and roots. The roots may come
    /// in either order: the smaller one is tried first.
    pub fn new(discriminant: Float, first: Float, second: Float) -> (roots: Roots)
        ensures
            roots.discriminant() == discriminant,
            roots.near() == Roots::lesser(first, second),
            roots.far() == Roots::greater(first, second),
    {
        if second.lt(first) {
            Roots { discriminant, near: second, far: first }
        } else {
            Roots { discriminant, near: first, far: second }
        }
    }

    /// The discriminant.
    #[verifier::when_used_as_spec(spec_discriminant)]
    pub fn discriminant(&self) -> (d: Float)
        ensures
            d == self.discriminant(),
    {
        self.discriminant
    }

    /// The root that is tried first.
    #[verifier::when_used_as_spec(spec_near)]
    pub fn near(&self) -> (t: Float)
        ensures
            t == self.near(),
    {
        self.near
    }

    /// The root that is tried second.
    #[verifier::when_used_as_spec(spec_far)]
    pub fn far(&self) -> (t: Float)
        ensures
            t == self.far(),
    {
        self.far
    }

    /// True where the quadratic has a real solution: the discriminant is zero
    /// or more.
    pub open spec fn solvable(self) -> bool {
        Float::zero().at_most(self.discriminant())
    }

    /// The root at which the ray hits the sphere within `(t_min, t_max)`, both
    /// ends excluded: the near root where it lies in the interval, else the far
    /// root where that one does, else none. There is none either where the
    /// quadratic has no solution.
    pub open spec fn accepted(self, t_min: Float, t_max: Float) -> Option<Float> {
        if self.solvable() && self.near().within(t_min, t_max) {
            Some(self.near())
        } else if self.solvable() && self.far().within(t_min, t_max) {
            Some(self.far())
        } else {
            None
        }
    }

    /// The hit of the ray on the sphere within `(t_min, t_max)`.
    pub fn hit(&self, t_min: Float, t_max: Float) -> (out: Option<Float>)
        ensures
            out == self.accepted(t_min, t_max),
            out.is_some() <==> self.solvable() && (self.near().within(t_min, t_max)
                || self.far().within(t_min, t_max)),
    {
        if self.discriminant.ge(Float::zero()) {
            if self.near.lt(t_max) && self.near.gt(t_min) {
                return Some(self.near);
            }
            if self.far.lt(t_max) && self.far.gt(t_min) {
                return Some(self.far);
            }
        }
        None
    }

    /// A hit below a bound that itself lies below `t_max` is the hit within the
    /// whole interval too.
    proof fn lemma_widen(self, t_min: Float, bound: Float, t_max: Float)
        requires
            self.ordered(),
            bound.at_most(t_max),
            self.accepted(t_min, bound).is_some(),
        ensures
            self.accepted(t_min, t_max) == self.accepted(t_min, bound),
    {
    }
}

impl Sphere {
    #[verifier::type_invariant]
    closed spec fn rounded(self) -> bool {
        !self.radius.same(Float::zero())
    }

    /// The centre.
    pub closed spec fn spec_center(&self) -> Vec3 {
        self.center
    }

    /// The radius.
    pub closed spec fn spec_radius(&self) -> Float {
        self.radius
    }

    /// The material of the surface.
    pub closed spec fn surface(&self) -> Material {
        *self.material
    }

    /// The sphere round `center` with the given radius and material. A radius
    /// of zero, of either sign, is refused; every other radius is taken, a
    /// negative one too.
    pub fn new(center: Vec3, radius: Float, material: Arc<Material>) -> (out: Result<
        Sphere,
        ConfigError,
    >)
        ensures
            match out {
                Ok(sphere) => {
                    &&& !radius.same(Float::zero())
                    &&& sphere.center() == center
                    &&& sphere.radius() == radius
                    &&& sphere.surface() == *material
                },
                Err(e) => radius.same(Float::zero()) && e == ConfigError::ZeroRadius,
            },
    {
        if radius.equals(Float::zero()) {
            Err(ConfigError::ZeroRadius)
        } else {
            Ok(Sphere { center, radius, material })
        }
    }

    /// The centre.
    #[verifier::when_used_as_spec(spec_center)]
    pub fn center(&self) -> (c: Vec3)
        ensures
            c == self.center(),
    {
        self.center
    }

    /// The radius, which is not zero.
    #[verifier::when_used_as_spec(spec_radius)]
    pub fn radius(&self) -> (r: Float)
        ensures
            r == self.radius(),
            !r.same(Float::zero()),
    {
        proof {
            use_type_invariant(self);
        }
        self.radius
    }

    /// The material of the surface, shared with every sphere that was made
    /// with it.
    pub fn material(&self) -> (m: &Arc<Material>)
        ensures
            **m == self.surface(),
    {
        &self.material
    }
}

impl View for HittableList {
    type V = Seq<Sphere>;

    closed spec fn view(&self) -> Seq<Sphere> {
        self.list@
    }
}

impl HittableList {
    /// The scene without a sphere.
    pub fn new() -> (scene: HittableList)
        ensures
            scene@ == Seq::<Sphere>::empty(),
    {
        HittableList { list: Vec::with_capacity(1000) }
    }

    /// Puts a sphere behind those that the scene holds.
    pub fn add(&mut self, obj: Sphere)
        ensures
            final(self)@ == old(self)@.push(obj),
    {
        self.list.push(obj);
    }

    /// The spheres, in the order in which they were added.
    pub fn list(&self) -> (spheres: &Vec<Sphere>)
        ensures
            spheres@ == self@,
    {
        &self.list
    }
}

/// True where `best` is the nearest hit among the first `n` of `candidates`
/// within `(t_min, t_max)`: its sphere is hit at `best.t`, no sphere is hit
/// nearer, and no sphere before it is hit as near.
pub open spec fn is_nearest(
    candidates: Seq<Roots>,
    n: int,
    t_min: Float,
    t_max: Float,
    best: Nearest,
) -> bool {
    &&& 0 <= best.index < n
    &&& candidates[best.index as int].accepted(t_min, t_max) == Some(best.t)
    &&& forall|j: int|
        0 <= j < n ==> (#[trigger] candidates[j].accepted(t_min, t_max) matches Some(t)
            ==> best.t.at_most(t) && (j < best.index ==> best.t.below(t)))
}

/// True where none of the first `n` of `candidates` is hit within
/// `(t_min, t_max)`.
pub open spec fn none_hit(candidates: Seq<Roots>, n: int, t_min: Float, t_max: Float) -> bool {
    forall|j: int| 0 <= j < n ==> (#[trigger] candidates[j].accepted(t_min, t_max)).is_none()
}

/// There is one nearest hit at most: two that both are the nearest are the
/// same sphere at the same parameter.
pub proof fn lemma_nearest_unique(
    candidates: Seq<Roots>,
    n: int,
    t_min: Float,
    t_max: Float,
    first: Nearest,
    second: Nearest,
)
    requires
        is_nearest(candidates, n, t_min, t_max, first),
        is_nearest(candidates, n, t_min, t_max, second),
    ensures
        first == second,
{
}

/// The nearest hit of a ray on a scene within `(t_min, t_max)`, from the
/// solutions of the ray with each sphere, in the order of the scene. The spheres
/// are tried one after the other, each only below the nearest hit so far, so
/// that of two spheres that are hit equally near the earlier one wins.
pub fn nearest(candidates: &Vec<Roots>, t_min: Float, t_max: Float) -> (out: Option<Nearest>)
    ensures
        out.is_none() <==> none_hit(candidates@, candidates@.len() as int, t_min, t_max),
        out matches Some(best) ==> is_nearest(
            candidates@,
            candidates@.len() as int,
            t_min,
            t_max,
            best,
        ),
{
    let mut best: Option<Nearest> = None;
    let mut closest_so_far = t_max;
    let mut i: usize = 0;
    while i < candidates.len()
        invariant
            0 <= i <= candidates.len(),
            best matches Some(b) ==> closest_so_far == b.t && is_nearest(
                candidates@,
                i as int,
                t_min,
                t_max,
                b,
            ),
            best.is_none() ==> closest_so_far == t_max && none_hit(
                candidates@,
                i as int,
                t_min,
                t_max,
            ),
        decreases candidates.len() - i,
    {
        let candidate = &candidates[i];
        match candidate.hit(t_min, closest_so_far) {
            Some(t) => {
                proof {
                    use_type_invariant(candidate);
                    if best.is_some() {
                        candidate.lemma_widen(t_min, closest_so_far, t_max);
                    }
                }
                closest_so_far = t;
                best = Some(Nearest { index: i, t });
            },
            None => {},
        }
        i += 1;
    }
    best
}

} // verus!
