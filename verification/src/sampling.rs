//! Random numbers and random points.
//!
//! Every number that is drawn here is a multiple of `2^-24`, taken from the top
//! twenty-four bits of a random word. Such a number, its double and its
//! difference to one are exact in single precision, and whether a point of such
//! coordinates lies within the unit ball is decided in whole numbers, without
//! rounding.

use vstd::prelude::*;
use crate::float::{Float, UNIT_STEPS};
use crate::vector::Vec3;

verus! {

/// How many points are drawn at most in the search for one within the unit
/// ball or disk. Nearly half of the points of the cube miss the ball, so that a
/// search fails this often about once in ten to the power of 82.
pub const MAX_DRAWS: u32 = 256;

/// The square of `2^24`: the squared length, in steps, of a vector of length
/// one.
pub const UNIT_STEPS_SQUARED: i64 = 0x1_0000_0000_0000;

/// A word that stands for the middle of the cube: zero on each axis.
pub const CENTRE_WORD: u32 = 0x8000_0000;

/// A word of random bits from the generator of the calling thread.
///
/// Calls `rand::thread_rng` for the generator and `RngCore::next_u32` on it.
/// Nothing is claimed of the word. Each thread has a generator of its own,
/// which is seeded by the system when the thread first draws and again after
/// every 64 KiB that were drawn. The call panics where the system then has no
/// entropy to give; nothing else makes it fail.
#[verifier::external_body]
fn random_word() -> (word: u32) {
    rand::RngCore::next_u32(&mut rand::thread_rng())
}

/// The top twenty-four bits of a word, as a number of steps from zero.
pub open spec fn unit_steps(word: u32) -> int {
    word as int / 256
}

/// The steps of the coordinate in the cube that a word stands for: twice its
/// steps from zero, less the steps of one.
pub open spec fn cube_steps(word: u32) -> int {
    2 * unit_steps(word) - UNIT_STEPS
}

/// True where a vector of the given steps is shorter than one.
pub open spec fn inside_unit(n1: int, n2: int, n3: int) -> bool {
    n1 * n1 + n2 * n2 + n3 * n3 < UNIT_STEPS_SQUARED
}

/// True where the three components of `p` are `n1`, `n2` and `n3` steps of
/// `2^-24`.
pub open spec fn at_steps(p: Vec3, n1: int, n2: int, n3: int) -> bool {
    p.e1.represents(n1) && p.e2.represents(n2) && p.e3.represents(n3)
}

/// True where `p` is the point of the cube that the three words stand for,
/// and lies inside the unit ball: its coordinates are their steps in the cube,
/// and the sum of the squares of the steps is below that of one.
pub open spec fn ball_point_of(p: Vec3, w1: u32, w2: u32, w3: u32) -> bool {
    &&& at_steps(p, cube_steps(w1), cube_steps(w2), cube_steps(w3))
    &&& inside_unit(cube_steps(w1), cube_steps(w2), cube_steps(w3))
}

/// True where `p` is the point of the square that the two words stand for, in
/// the plane of the first two axes, and lies inside the unit disk.
pub open spec fn disk_point_of(p: Vec3, w1: u32, w2: u32) -> bool {
    &&& at_steps(p, cube_steps(w1), cube_steps(w2), 0)
    &&& inside_unit(cube_steps(w1), cube_steps(w2), 0)
}

/// True where `p` is a point that can be drawn inside the unit ball: one that
/// three words stand for and that is shorter than one.
pub open spec fn in_unit_ball(p: Vec3) -> bool {
    exists|w1: u32, w2: u32, w3: u32| #[trigger] ball_point_of(p, w1, w2, w3)
}

/// True where `p` is a point that can be drawn inside the unit disk of the
/// plane of the first two axes.
pub open spec fn in_unit_disk(p: Vec3) -> bool {
    exists|w1: u32, w2: u32| #[trigger] disk_point_of(p, w1, w2)
}

/// The number in `[0, 1)` that a random word stands for: its top twenty-four
/// bits, times `2^-24`.
pub fn unit_sample(word: u32) -> (f: Float)
    ensures
        f.represents(unit_steps(word)),
        Float::zero().at_most(f),
        f.below(Float::one()),
{
    Float::from_units((word / 256) as i32)
}

/// A number drawn uniformly from `[0, 1)`.
pub fn drand48() -> (f: Float)
    ensures
        exists|word: u32| f.represents(#[trigger] unit_steps(word)),
        Float::zero().at_most(f),
        f.below(Float::one()),
{
    let word = random_word();
    unit_sample(word)
}

fn steps_in_cube(word: u32) -> (n: i32)
    ensures
        n == cube_steps(word),
        -UNIT_STEPS <= n < UNIT_STEPS,
{
    2 * ((word / 256) as i32) - UNIT_STEPS
}

fn squared(n: i32) -> (s: i64)
    requires
        -UNIT_STEPS <= n <= UNIT_STEPS,
    ensures
        s == n * n,
        0 <= s <= UNIT_STEPS_SQUARED,
{
    assert(0 <= n * n <= 0x100_0000 * 0x100_0000) by (nonlinear_arith)
        requires
            -0x100_0000 <= n <= 0x100_0000,
    ;
    (n as i64) * (n as i64)
}

/// The point of the cube `[-1, 1)³` that three random words stand for, where
/// it lies inside the unit ball, and nothing where it does not. Each
/// coordinate is twice the number that its word stands for, less one.
pub fn ball_point(w1: u32, w2: u32, w3: u32) -> (out: Option<Vec3>)
    ensures
        out.is_some() <==> inside_unit(cube_steps(w1), cube_steps(w2), cube_steps(w3)),
        out matches Some(p) ==> ball_point_of(p, w1, w2, w3),
{
    let n1 = steps_in_cube(w1);
    let n2 = steps_in_cube(w2);
    let n3 = steps_in_cube(w3);
    if squared(n1) + squared(n2) + squared(n3) < UNIT_STEPS_SQUARED {
        Some(Vec3::from(Float::from_units(n1), Float::from_units(n2), Float::from_units(n3)))
    } else {
        None
    }
}

/// The point of the square `[-1, 1)²` that two random words stand for, where
/// it lies inside the unit disk, and nothing where it does not. The third
/// coordinate is zero.
pub fn disk_point(w1: u32, w2: u32) -> (out: Option<Vec3>)
    ensures
        out.is_some() <==> inside_unit(cube_steps(w1), cube_steps(w2), 0),
        out matches Some(p) ==> disk_point_of(p, w1, w2),
{
    let n1 = steps_in_cube(w1);
    let n2 = steps_in_cube(w2);
    if squared(n1) + squared(n2) < UNIT_STEPS_SQUARED {
        Some(Vec3::from(Float::from_units(n1), Float::from_units(n2), Float::zero()))
    } else {
        None
    }
}

/// A random point inside the unit ball: points of the cube are drawn until one
/// lies inside. Should `MAX_DRAWS` points in a row lie outside, the centre is
/// given.
pub fn random_in_unit_sphere() -> (p: Vec3)
    ensures
        in_unit_ball(p),
{
    let mut draws: u32 = 0;
    while draws < MAX_DRAWS
        invariant
            draws <= MAX_DRAWS,
        decreases MAX_DRAWS - draws,
    {
        let w1 = random_word();
        let w2 = random_word();
        let w3 = random_word();
        match ball_point(w1, w2, w3) {
            Some(p) => {
                return p;
            },
            None => {},
        }
        draws += 1;
    }
    let centre = Vec3::new();
    assert(ball_point_of(centre, CENTRE_WORD, CENTRE_WORD, CENTRE_WORD));
    centre
}

/// A random point inside the unit disk of the plane of the first two axes:
/// points of the square are drawn until one lies inside. Should `MAX_DRAWS`
/// points in a row lie outside, the centre is given.
pub fn random_in_unit_disk() -> (p: Vec3)
    ensures
        in_unit_disk(p),
{
    let mut draws: u32 = 0;
    while draws < MAX_DRAWS
        invariant
            draws <= MAX_DRAWS,
        decreases MAX_DRAWS - draws,
    {
        let w1 = random_word();
        let w2 = random_word();
        match disk_point(w1, w2) {
            Some(p) => {
                return p;
            },
            None => {},
        }
        draws += 1;
    }
    let centre = Vec3::new();
    assert(disk_point_of(centre, CENTRE_WORD, CENTRE_WORD));
    centre
}

} // verus!
