//! The deciding core of a Monte-Carlo path tracer for scenes of spheres.
//!
//! A path tracer follows rays from a camera into a scene, lets each surface
//! that a ray meets scatter or absorb it, and averages what many such paths
//! bring back into the colour of a pixel. This crate holds what such a renderer
//! decides and keeps: the scene and its materials, which root of which sphere
//! is the hit of a ray, what a material does with a ray, when a path ends, the
//! random numbers and points that are drawn, the grid of pixels and the bytes
//! of the finished image, and what makes a configuration invalid.
//!
//! Numbers are single-precision values held by their bit patterns (see
//! [`float::Float`]). The crate compares them exactly as IEEE-754 orders them,
//! and it draws random multiples of `2^-24`, but it does no arithmetic with
//! rounding: sums, products, roots and the like are worked out by the caller
//! and handed in.

pub mod config;
pub mod float;
pub mod frame;
pub mod hittable;
pub mod material;
pub mod ray;
pub mod sampling;
pub mod vector;
