use raytracer::config::ConfigError;
use raytracer::float::Float;
use raytracer::hittable::{nearest, HittableList, Roots, Sphere};
use raytracer::material::{Dielectric, Lambertian, Material};
use raytracer::ray::Ray;
use raytracer::vector::Vec3;
use std::sync::Arc;

fn fl(x: f32) -> Float {
    Float::from_bits(x.to_bits())
}

fn num(f: Float) -> f32 {
    f32::from_bits(f.to_bits())
}

fn v(x: f32, y: f32, z: f32) -> Vec3 {
    Vec3::from(fl(x), fl(y), fl(z))
}

/// Solves the quadratic of a ray and a sphere as the renderer does.
fn solve(origin: (f32, f32, f32), direction: (f32, f32, f32), sphere: &Sphere) -> Roots {
    let c = sphere.center();
    let oc = (
        origin.0 - num(c.x()),
        origin.1 - num(c.y()),
        origin.2 - num(c.z()),
    );
    let r = num(sphere.radius());
    let a = direction.0 * direction.0 + direction.1 * direction.1 + direction.2 * direction.2;
    let b = oc.0 * direction.0 + oc.1 * direction.1 + oc.2 * direction.2;
    let cc = oc.0 * oc.0 + oc.1 * oc.1 + oc.2 * oc.2 - r * r;
    let discriminant = b * b - a * cc;
    let root = discriminant.sqrt();
    Roots::new(fl(discriminant), fl((-b - root) / a), fl((-b + root) / a))
}

fn grey() -> Arc<Material> {
    Arc::new(Material::Lambertian(Lambertian::new(v(0.5, 0.5, 0.5))))
}

#[test]
fn near_root_is_taken_first() {
    let roots = Roots::new(fl(0.25), fl(0.5), fl(1.5));
    assert_eq!(roots.hit(fl(0.001), fl(f32::MAX)).map(num), Some(0.5));
}

#[test]
fn far_root_is_taken_when_the_near_one_is_out() {
    let roots = Roots::new(fl(0.25), fl(0.5), fl(1.5));
    assert_eq!(roots.hit(fl(0.5), fl(f32::MAX)).map(num), Some(1.5));
    assert_eq!(roots.hit(fl(1.0), fl(2.0)).map(num), Some(1.5));
    let behind = Roots::new(fl(1.0), fl(-2.0), fl(3.0));
    assert_eq!(behind.hit(fl(0.001), fl(f32::MAX)).map(num), Some(3.0));
}

#[test]
fn ends_of_the_interval_are_excluded() {
    let roots = Roots::new(fl(0.25), fl(0.5), fl(1.5));
    assert!(roots.hit(fl(0.5), fl(1.5)).is_none());
    assert!(roots.hit(fl(1.5), fl(f32::MAX)).is_none());
    assert!(roots.hit(fl(0.001), fl(0.5)).is_none());
    assert!(roots.hit(fl(0.6), fl(1.4)).is_none());
}

#[test]
fn negative_discriminant_is_a_miss() {
    let roots = Roots::new(fl(-0.25), fl(0.5), fl(1.5));
    assert!(roots.hit(fl(0.001), fl(f32::MAX)).is_none());
    let nan = Roots::new(fl(f32::NAN), fl(0.5), fl(1.5));
    assert!(nan.hit(fl(0.001), fl(f32::MAX)).is_none());
}

#[test]
fn zero_discriminant_is_a_grazing_hit() {
    let roots = Roots::new(fl(0.0), fl(2.0), fl(2.0));
    assert_eq!(roots.hit(fl(0.001), fl(f32::MAX)).map(num), Some(2.0));
    let minus = Roots::new(fl(-0.0), fl(2.0), fl(2.0));
    assert_eq!(minus.hit(fl(0.001), fl(f32::MAX)).map(num), Some(2.0));
}

#[test]
fn roots_that_are_no_numbers_never_hit() {
    let roots = Roots::new(fl(1.0), fl(f32::NAN), fl(f32::NAN));
    assert!(roots.hit(fl(0.001), fl(f32::MAX)).is_none());
    let half = Roots::new(fl(1.0), fl(f32::NAN), fl(4.0));
    assert_eq!(half.hit(fl(0.001), fl(f32::MAX)).map(num), Some(4.0));
}

#[test]
fn roots_are_put_in_order() {
    let roots = Roots::new(fl(1.0), fl(3.0), fl(2.0));
    assert_eq!(num(roots.near()), 2.0);
    assert_eq!(num(roots.far()), 3.0);
    assert_eq!(num(roots.discriminant()), 1.0);
    let kept = Roots::new(fl(1.0), fl(2.0), fl(3.0));
    assert_eq!(num(kept.near()), 2.0);
    assert_eq!(num(kept.far()), 3.0);
}

#[test]
fn nearest_of_an_empty_scene_is_nothing() {
    assert!(nearest(&Vec::new(), fl(0.001), fl(f32::MAX)).is_none());
    assert!(Ray::seen(&Vec::new()).is_none());
}

#[test]
fn nearest_picks_the_smallest_parameter() {
    let candidates = vec![
        Roots::new(fl(1.0), fl(5.0), fl(6.0)),
        Roots::new(fl(-1.0), fl(0.5), fl(0.6)),
        Roots::new(fl(1.0), fl(2.0), fl(9.0)),
        Roots::new(fl(1.0), fl(3.0), fl(4.0)),
        Roots::new(fl(1.0), fl(-7.0), fl(2.5)),
    ];
    let best = nearest(&candidates, fl(0.001), fl(f32::MAX)).unwrap();
    assert_eq!(best.index, 2);
    assert_eq!(num(best.t), 2.0);
}

#[test]
fn nearest_keeps_the_first_of_equals() {
    let candidates = vec![
        Roots::new(fl(1.0), fl(5.0), fl(6.0)),
        Roots::new(fl(1.0), fl(2.0), fl(3.0)),
        Roots::new(fl(1.0), fl(2.0), fl(2.5)),
        Roots::new(fl(1.0), fl(-1.0), fl(2.0)),
    ];
    let best = nearest(&candidates, fl(0.001), fl(f32::MAX)).unwrap();
    assert_eq!(best.index, 1);
    assert_eq!(num(best.t), 2.0);
}

#[test]
fn nearest_respects_the_interval() {
    let candidates = vec![
        Roots::new(fl(1.0), fl(0.0005), fl(0.0008)),
        Roots::new(fl(1.0), fl(10.0), fl(11.0)),
    ];
    assert!(nearest(&candidates, fl(0.001), fl(5.0)).is_none());
    let best = nearest(&candidates, fl(0.001), fl(10.5)).unwrap();
    assert_eq!((best.index, num(best.t)), (1, 10.0));
    let seen = Ray::seen(&candidates).unwrap();
    assert_eq!((seen.index, num(seen.t)), (1, 10.0));
    let close = nearest(&candidates, fl(0.0001), fl(10.5)).unwrap();
    assert_eq!((close.index, num(close.t)), (0, 0.0005));
}

#[test]
fn sphere_keeps_what_it_was_made_of() {
    let sphere = Sphere::new(v(0.0, 0.0, -1.0), fl(0.5), grey()).unwrap();
    assert_eq!(num(sphere.center().z()), -1.0);
    assert_eq!(num(sphere.radius()), 0.5);
    match **sphere.material() {
        Material::Lambertian(m) => assert_eq!(num(m.albedo.r()), 0.5),
        _ => panic!("wrong material"),
    }
}

#[test]
fn sphere_of_radius_zero_is_refused() {
    assert_eq!(
        Sphere::new(v(0.0, 0.0, 0.0), fl(0.0), grey()).err(),
        Some(ConfigError::ZeroRadius)
    );
    assert_eq!(
        Sphere::new(v(0.0, 0.0, 0.0), fl(-0.0), grey()).err(),
        Some(ConfigError::ZeroRadius)
    );
    assert!(Sphere::new(v(0.0, 0.0, 0.0), fl(f32::MIN_POSITIVE), grey()).is_ok());
}

#[test]
fn hollow_shell_of_two_spheres() {
    let glass = Arc::new(Material::Dielectric(Dielectric::new(fl(1.5))));
    let outer = Sphere::new(v(0.0, 0.0, -1.0), fl(0.5), glass.clone()).unwrap();
    let inner = Sphere::new(v(0.0, 0.0, -1.0), fl(-0.45), glass).unwrap();
    assert_eq!(num(inner.radius()), -0.45);
    let mut scene = HittableList::new();
    scene.add(outer);
    scene.add(inner);
    assert_eq!(scene.list().len(), 2);

    // A ray along the axis meets the outer surface first, then the inner one.
    let origin = (0.0, 0.0, 0.0);
    let direction = (0.0, 0.0, -1.0);
    let candidates: Vec<Roots> = scene
        .list()
        .iter()
        .map(|s| solve(origin, direction, s))
        .collect();
    let first = Ray::seen(&candidates).unwrap();
    assert_eq!((first.index, num(first.t)), (0, 0.5));
    let second = nearest(&candidates, first.t, fl(f32::MAX)).unwrap();
    assert_eq!(second.index, 1);
    assert!((num(second.t) - 0.55).abs() < 1.0e-6);

    // The normal of the inner sphere points to the centre.
    let sphere = &scene.list()[second.index];
    let p_z = origin.2 + num(second.t) * direction.2;
    let normal_z = (p_z - num(sphere.center().z())) / num(sphere.radius());
    let outward_z = p_z - num(sphere.center().z());
    assert!((normal_z.abs() - 1.0).abs() < 1.0e-5);
    assert!(normal_z * outward_z < 0.0);
}

#[test]
fn scene_keeps_the_order_of_its_spheres() {
    let mut scene = HittableList::new();
    assert!(scene.list().is_empty());
    for i in 1..=5 {
        scene.add(Sphere::new(v(i as f32, 0.0, 0.0), fl(i as f32), grey()).unwrap());
    }
    let radii: Vec<f32> = scene.list().iter().map(|s| num(s.radius())).collect();
    assert_eq!(radii, vec![1.0, 2.0, 3.0, 4.0, 5.0]);
}

#[test]
fn ray_through_the_centre_hits_the_sphere() {
    let sphere = Sphere::new(v(0.0, 0.0, -1.0), fl(0.5), grey()).unwrap();
    let roots = solve((0.0, 0.0, 0.0), (0.0, 0.0, -1.0), &sphere);
    assert_eq!(num(roots.discriminant()), 0.25);
    assert_eq!(roots.hit(fl(0.001), fl(f32::MAX)).map(num), Some(0.5));
    let miss = solve((0.0, 0.0, 0.0), (0.0, 1.0, 0.0), &sphere);
    assert!(miss.hit(fl(0.001), fl(f32::MAX)).is_none());
}

#[test]
fn every_finite_parameter_above_a_thousandth_is_seen() {
    let far = vec![Roots::new(fl(1.0), fl(-1.0), fl(f32::MAX))];
    let seen = Ray::seen(&far).unwrap();
    assert_eq!((seen.index, num(seen.t)), (0, f32::MAX));
    let endless = vec![Roots::new(fl(1.0), fl(-1.0), fl(f32::INFINITY))];
    assert!(Ray::seen(&endless).is_none());
    let too_close = vec![Roots::new(fl(1.0), fl(0.0005), fl(0.001))];
    assert!(Ray::seen(&too_close).is_none());
    let close = vec![Roots::new(fl(1.0), fl(0.0005), fl(0.0011))];
    assert_eq!(Ray::seen(&close).map(|n| num(n.t)), Some(0.0011));
}
