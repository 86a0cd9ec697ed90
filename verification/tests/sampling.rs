use rand::rngs::StdRng;
use rand::{Rng, RngCore, SeedableRng};
use raytracer::float::Float;
use raytracer::sampling::{
    ball_point, disk_point, drand48, random_in_unit_disk, random_in_unit_sphere, unit_sample,
};

fn machine(f: Float) -> f32 {
    f32::from_bits(f.to_bits())
}

fn words() -> Vec<u32> {
    let mut all = vec![
        0,
        1,
        255,
        256,
        257,
        511,
        512,
        0x7fff_ffff,
        0x8000_0000,
        0x8000_00ff,
        0x8000_0100,
        0xffff_feff,
        0xffff_ff00,
        0xffff_ffff,
        0x4000_0000,
        0xc000_0000,
        0x0000_0100,
        0x0001_0000,
        0x1234_5678,
    ];
    let mut w: u32 = 0x9e37_79b9;
    for _ in 0..20_000 {
        w = w.wrapping_mul(1_664_525).wrapping_add(1_013_904_223);
        all.push(w);
    }
    all
}

#[test]
fn unit_sample_is_the_top_bits_scaled() {
    let scale = 1.0f32 / 16_777_216.0;
    for w in words() {
        let expected = scale * ((w >> 8) as f32);
        assert_eq!(unit_sample(w).to_bits(), expected.to_bits(), "word {w:#x}");
    }
}

#[test]
fn unit_sample_known_values() {
    assert_eq!(unit_sample(0).to_bits(), 0);
    assert_eq!(unit_sample(0x8000_0000).to_bits(), 0.5f32.to_bits());
    assert_eq!(unit_sample(0x4000_0000).to_bits(), 0.25f32.to_bits());
    assert_eq!(unit_sample(0x0000_0100).to_bits(), (2.0f32).powi(-24).to_bits());
    assert_eq!(unit_sample(0xffff_ffff).to_bits(), (1.0f32 - (2.0f32).powi(-24)).to_bits());
}

#[test]
fn ball_point_doubles_and_subtracts_one() {
    let all = words();
    let mut tried = 0;
    for i in 0..all.len() - 2 {
        let (w1, w2, w3) = (all[i], all[i + 1], all[i + 2]);
        if let Some(p) = ball_point(w1, w2, w3) {
            let x = 2.0f32 * machine(unit_sample(w1)) - 1.0;
            let y = 2.0f32 * machine(unit_sample(w2)) - 1.0;
            let z = 2.0f32 * machine(unit_sample(w3)) - 1.0;
            assert_eq!(p.x().to_bits(), x.to_bits());
            assert_eq!(p.y().to_bits(), y.to_bits());
            assert_eq!(p.z().to_bits(), z.to_bits());
            tried += 1;
        }
    }
    assert!(tried > 1000);
}

#[test]
fn ball_point_takes_exactly_the_inside() {
    let all = words();
    for i in 0..all.len() - 2 {
        let (w1, w2, w3) = (all[i], all[i + 1], all[i + 2]);
        let n1 = 2 * ((w1 >> 8) as i64) - (1 << 24);
        let n2 = 2 * ((w2 >> 8) as i64) - (1 << 24);
        let n3 = 2 * ((w3 >> 8) as i64) - (1 << 24);
        let inside = n1 * n1 + n2 * n2 + n3 * n3 < (1i64 << 48);
        assert_eq!(ball_point(w1, w2, w3).is_some(), inside);
    }
}

#[test]
fn ball_point_at_the_corners_and_the_centre() {
    assert!(ball_point(0, 0, 0).is_none());
    assert!(ball_point(0xffff_ffff, 0xffff_ffff, 0xffff_ffff).is_none());
    let centre = ball_point(0x8000_0000, 0x8000_0000, 0x8000_0000).unwrap();
    assert_eq!(centre.x().to_bits(), 0);
    assert_eq!(centre.y().to_bits(), 0);
    assert_eq!(centre.z().to_bits(), 0);
    // (-1, 0, 0) lies on the sphere, not inside it.
    assert!(ball_point(0, 0x8000_0000, 0x8000_0000).is_none());
    // One step inside of it.
    let near = ball_point(0x0000_0100, 0x8000_0000, 0x8000_0000).unwrap();
    assert_eq!(near.x().to_bits(), (-1.0f32 + (2.0f32).powi(-23)).to_bits());
}

#[test]
fn disk_point_lies_in_the_plane() {
    let all = words();
    for i in 0..all.len() - 1 {
        let (w1, w2) = (all[i], all[i + 1]);
        let n1 = 2 * ((w1 >> 8) as i64) - (1 << 24);
        let n2 = 2 * ((w2 >> 8) as i64) - (1 << 24);
        let inside = n1 * n1 + n2 * n2 < (1i64 << 48);
        match disk_point(w1, w2) {
            Some(p) => {
                assert!(inside);
                assert_eq!(p.x().to_bits(), (2.0f32 * machine(unit_sample(w1)) - 1.0).to_bits());
                assert_eq!(p.y().to_bits(), (2.0f32 * machine(unit_sample(w2)) - 1.0).to_bits());
                assert_eq!(p.z().to_bits(), 0);
            }
            None => assert!(!inside),
        }
    }
}

#[test]
fn drawn_numbers_lie_in_the_unit_interval() {
    let mut seen_low = false;
    let mut seen_high = false;
    for _ in 0..10_000 {
        let x = machine(drand48());
        assert!((0.0..1.0).contains(&x));
        assert_eq!(x * 16_777_216.0, (x * 16_777_216.0).floor());
        seen_low |= x < 0.5;
        seen_high |= x >= 0.5;
    }
    assert!(seen_low && seen_high);
}

#[test]
fn drawn_points_lie_in_the_unit_ball() {
    let mut octants = [false; 8];
    for _ in 0..10_000 {
        let p = random_in_unit_sphere();
        let (x, y, z) = (
            machine(p.x()) as f64,
            machine(p.y()) as f64,
            machine(p.z()) as f64,
        );
        assert!(x * x + y * y + z * z < 1.0);
        let octant = (x < 0.0) as usize | ((y < 0.0) as usize) << 1 | ((z < 0.0) as usize) << 2;
        octants[octant] = true;
    }
    assert!(octants.iter().all(|seen| *seen));
}

#[test]
fn drawn_points_lie_in_the_unit_disk() {
    let mut quadrants = [false; 4];
    for _ in 0..10_000 {
        let p = random_in_unit_disk();
        let (x, y) = (machine(p.x()) as f64, machine(p.y()) as f64);
        assert!(x * x + y * y < 1.0);
        assert_eq!(p.z().to_bits(), 0);
        quadrants[(x < 0.0) as usize | ((y < 0.0) as usize) << 1] = true;
    }
    assert!(quadrants.iter().all(|seen| *seen));
}

#[test]
fn unit_sample_is_what_the_generator_makes_of_a_word() {
    let mut numbers = StdRng::seed_from_u64(0x5eed);
    let mut words = numbers.clone();
    for _ in 0..20_000 {
        let x: f32 = numbers.gen();
        let w = words.next_u32();
        assert_eq!(unit_sample(w).to_bits(), x.to_bits());
    }
}

#[test]
fn rounding_would_take_the_same_points() {
    // Away from the surface of the ball the rounded sum of squares decides as
    // the whole numbers do.
    let all = words();
    for i in 0..all.len() - 2 {
        let (w1, w2, w3) = (all[i], all[i + 1], all[i + 2]);
        let x = 2.0f32 * machine(unit_sample(w1)) - 1.0;
        let y = 2.0f32 * machine(unit_sample(w2)) - 1.0;
        let z = 2.0f32 * machine(unit_sample(w3)) - 1.0;
        let rounded = x * x + y * y + z * z;
        if (rounded - 1.0).abs() > 1.0e-6 {
            assert_eq!(ball_point(w1, w2, w3).is_some(), rounded < 1.0);
        }
    }
}
