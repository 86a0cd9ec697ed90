//! Triples of numbers: points, directions and colours.

use vstd::prelude::*;
use crate::float::Float;

verus! {

/// Three numbers, read as a point, a direction or a colour as the context
/// asks. A value is never changed in place.
#[derive(Clone, Copy, Debug)]
pub struct Vec3 {
    pub e1: Float,
    pub e2: Float,
    pub e3: Float,
}

impl Vec3 {
    /// The triple whose three components are `e`.
    pub open spec fn splat(e: Float) -> Vec3 {
        Vec3 { e1: e, e2: e, e3: e }
    }

    /// The origin: three positive zeros.
    pub fn new() -> (v: Vec3)
        ensures
            v == Vec3::splat(Float::zero()),
    {
        Vec3 { e1: Float::zero(), e2: Float::zero(), e3: Float::zero() }
    }

    /// The triple of the three given components, in this order.
    pub fn from(e1: Float, e2: Float, e3: Float) -> (v: Vec3)
        ensures
            v == (Vec3 { e1, e2, e3 }),
    {
        Vec3 { e1, e2, e3 }
    }

    /// The triple that repeats one component.
    pub fn uniform(e: Float) -> (v: Vec3)
        ensures
            v == Vec3::splat(e),
    {
        Vec3 { e1: e, e2: e, e3: e }
    }

    /// The colour with each channel brought into `[0, 1]`, as a colour must be
    /// before its channels are scaled to bytes.
    pub fn clamped(&self) -> (v: Vec3)
        ensures
            v == (Vec3 {
                e1: self.e1.unit_clamped(),
                e2: self.e2.unit_clamped(),
                e3: self.e3.unit_clamped(),
            }),
            v.e1.finite() && v.e2.finite() && v.e3.finite(),
    {
        Vec3 { e1: self.e1.clamp_unit(), e2: self.e2.clamp_unit(), e3: self.e3.clamp_unit() }
    }

    /// First component of a point or direction.
    pub fn x(&self) -> (e: Float)
        ensures
            e == self.e1,
    {
        self.e1
    }

    /// Second component of a point or direction.
    pub fn y(&self) -> (e: Float)
        ensures
            e == self.e2,
    {
        self.e2
    }

    /// Third component of a point or direction.
    pub fn z(&self) -> (e: Float)
        ensures
            e == self.e3,
    {
        self.e3
    }

    /// Red channel of a colour.
    pub fn r(&self) -> (e: Float)
        ensures
            e == self.e1,
    {
        self.e1
    }

    /// Green channel of a colour.
    pub fn g(&self) -> (e: Float)
        ensures
            e == self.e2,
    {
        self.e2
    }

    /// Blue channel of a colour.
    pub fn b(&self) -> (e: Float)
        ensures
            e == self.e3,
    {
        self.e3
    }
}

} // verus!
