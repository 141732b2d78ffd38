//! Vectors, rays, intervals, spheres and the scene search.

use raytrace::fixed::{Fx, SCALE};
use raytrace::hit_record::HitRecord;
use raytrace::hittable_list::HittableList;
use raytrace::interval::Interval;
use raytrace::material::Material;
use raytrace::ray::Ray;
use raytrace::sphere::Sphere;
use raytrace::vec3::Vec3;

fn v(x: i64, y: i64, z: i64) -> Vec3 {
    Vec3::new(Fx::from_int(x), Fx::from_int(y), Fx::from_int(z))
}

fn gray() -> Material {
    Material::new_lambertian(Vec3::new(
        Fx::from_raw(32768),
        Fx::from_raw(32768),
        Fx::from_raw(32768),
    ))
}

#[test]
fn vec_componentwise_ops() {
    let a = v(1, 2, 3);
    let b = v(4, 5, 6);
    assert_eq!(a.add(b), v(5, 7, 9));
    assert_eq!(b.sub(a), v(3, 3, 3));
    assert_eq!(a.neg(), v(-1, -2, -3));
    assert_eq!(a.mul(b), v(4, 10, 18));
    assert_eq!(a.scale(Fx::from_int(2)), v(2, 4, 6));
    assert_eq!(v(2, 4, 6).div(Fx::from_int(2)), v(1, 2, 3));
}

#[test]
fn vec_dot_cross_length() {
    let a = v(1, 2, 3);
    let b = v(4, 5, 6);
    assert_eq!(a.dot(b), Fx::from_int(32));
    assert_eq!(a.cross(b), v(-3, 6, -3));
    assert_eq!(v(0, 3, 4).length_squared(), Fx::from_int(25));
    assert_eq!(v(0, 3, 4).length(), Fx::from_int(5));
}

#[test]
fn vec_unit_vector() {
    let u = v(0, 3, 4).unit_vector();
    // 3/5 and 4/5, truncated to the grid
    assert_eq!(u.y.raw(), 39321);
    assert_eq!(u.z.raw(), 52428);
    assert_eq!(u.x.raw(), 0);
    // the zero vector maps to itself, by the division convention
    assert_eq!(Vec3::zero().unit_vector(), Vec3::zero());
}

#[test]
fn vec_near_zero() {
    assert!(Vec3::zero().near_zero());
    assert!(!Vec3::new(Fx::from_raw(1), Fx::zero(), Fx::zero()).near_zero());
}

#[test]
fn vec_index_selects_components() {
    let a = v(7, 8, 9);
    assert_eq!(a.index(0), a.x);
    assert_eq!(a.index(1), a.y);
    assert_eq!(a.index(2), a.z);
}

#[test]
fn vec_reflect() {
    // a ray falling at 45 degrees onto the xz-plane bounces up
    let incoming = v(1, -1, 0);
    let n = v(0, 1, 0);
    assert_eq!(incoming.reflect(&n), v(1, 1, 0));
}

#[test]
fn vec_refract_straight_through() {
    // head-on incidence passes straight through for any ratio
    let incoming = v(0, 0, -1);
    let n = v(0, 0, 1);
    let out = incoming.refract(&n, Fx::from_raw(43690));
    assert_eq!(out.x.raw(), 0);
    assert_eq!(out.y.raw(), 0);
    assert!(out.z.raw() < 0);
}

#[test]
fn ray_evaluates_at_parameter() {
    let r = Ray::new(v(1, 2, 3), v(1, 0, 0));
    assert_eq!(r.at(Fx::from_int(2)), v(3, 2, 3));
    assert_eq!(r.at(Fx::from_int(-1)), v(0, 2, 3));
    assert_eq!(r.at(Fx::zero()), v(1, 2, 3));
}

#[test]
fn interval_contains_allows_bounds_surrounds_does_not() {
    let i = Interval::new(Fx::from_int(1), Fx::from_int(3));
    assert!(i.contains(Fx::from_int(1)));
    assert!(i.contains(Fx::from_int(2)));
    assert!(i.contains(Fx::from_int(3)));
    assert!(!i.contains(Fx::from_raw(SCALE - 1)));
    assert!(!i.surrounds(Fx::from_int(1)));
    assert!(i.surrounds(Fx::from_int(2)));
    assert!(!i.surrounds(Fx::from_int(3)));
}

#[test]
fn interval_empty_and_universe() {
    let e = Interval::empty();
    assert!(!e.contains(Fx::zero()));
    assert!(!e.contains(Fx::from_int(100)));
    let u = Interval::universe();
    assert!(u.contains(Fx::from_int(-1000000)));
    assert!(u.contains(Fx::from_int(1000000)));
}

fn wide() -> Interval {
    Interval::new(Fx::from_raw(64), Fx::from_int(1000000))
}

#[test]
fn sphere_head_on_hits_near_root() {
    // from the origin straight at a unit sphere three away: the
    // near and far roots are distance minus and plus the radius
    let s = Sphere::new(v(0, 0, -3), Fx::from_int(1), gray());
    let r = Ray::new(v(0, 0, 0), v(0, 0, -1));
    let rec = s.hit(&r, &wide()).expect("must hit");
    assert_eq!(rec.t, Fx::from_int(2));
    assert_eq!(rec.p, v(0, 0, -2));
    assert!(rec.front_face);
    assert_eq!(rec.normal, v(0, 0, 1));
}

#[test]
fn sphere_far_root_taken_from_inside() {
    // starting inside, the near root is behind the guard, so the far
    // root at distance plus radius is taken
    let s = Sphere::new(v(0, 0, -3), Fx::from_int(1), gray());
    let r = Ray::new(v(0, 0, -3), v(0, 0, -1));
    let rec = s.hit(&r, &wide()).expect("must hit");
    assert_eq!(rec.t, Fx::from_int(1));
    assert!(!rec.front_face);
}

#[test]
fn sphere_far_root_is_distance_plus_radius() {
    let s = Sphere::new(v(0, 0, -3), Fx::from_int(1), gray());
    let r = Ray::new(v(0, 0, 0), v(0, 0, -1));
    // an interval past the near root forces the far one
    let past_near = Interval::new(Fx::from_int(3), Fx::from_int(1000000));
    let rec = s.hit(&r, &past_near).expect("must hit");
    assert_eq!(rec.t, Fx::from_int(4));
    assert!(!rec.front_face);
}

#[test]
fn sphere_miss_when_closest_approach_exceeds_radius() {
    let s = Sphere::new(v(2, 0, -3), Fx::from_int(1), gray());
    let r = Ray::new(v(0, 0, 0), v(0, 0, -1));
    assert!(s.hit(&r, &wide()).is_none());
}

#[test]
fn sphere_tangent_ray_repeated_root() {
    let s = Sphere::new(v(1, 0, -3), Fx::from_int(1), gray());
    let r = Ray::new(v(0, 0, 0), v(0, 0, -1));
    let rec = s.hit(&r, &wide()).expect("tangent counts as a hit");
    assert_eq!(rec.t, Fx::from_int(3));
}

#[test]
fn sphere_zero_direction_misses() {
    let s = Sphere::new(v(0, 0, -3), Fx::from_int(1), gray());
    let r = Ray::new(v(0, 0, 0), Vec3::zero());
    assert!(s.hit(&r, &wide()).is_none());
}

#[test]
fn hit_normal_always_opposes_ray() {
    let s = Sphere::new(v(0, 0, -3), Fx::from_int(1), gray());
    let outside = Ray::new(v(0, 0, 0), v(0, 0, -1));
    let inside = Ray::new(v(0, 0, -3), v(0, 0, -1));
    for r in [outside, inside] {
        let rec = s.hit(&r, &wide()).expect("must hit");
        assert!(r.dir.dot(rec.normal).le(Fx::zero()));
    }
}

#[test]
fn hollow_sphere_normal_points_inward() {
    // a negative radius flips the outward normal
    let s = Sphere::new(v(0, 0, -3), Fx::from_int(-1), gray());
    let r = Ray::new(v(0, 0, 0), v(0, 0, -1));
    let rec = s.hit(&r, &wide()).expect("must hit");
    assert_eq!(rec.t, Fx::from_int(2));
    // the inward-pointing geometric normal (0,0,-1) runs with the
    // ray, so the record flips it back and reports a back face
    assert_eq!(rec.normal, v(0, 0, 1));
    assert!(!rec.front_face);
}

#[test]
fn set_face_normal_orients_against_ray() {
    let m = gray();
    let mut rec = HitRecord::new(v(0, 0, -2), Vec3::zero(), Fx::from_int(2), m);
    let r = Ray::new(v(0, 0, 0), v(0, 0, -1));
    rec.set_face_normal(&r, &v(0, 0, 1));
    assert!(rec.front_face);
    assert_eq!(rec.normal, v(0, 0, 1));
    rec.set_face_normal(&r, &v(0, 0, -1));
    assert!(!rec.front_face);
    assert_eq!(rec.normal, v(0, 0, 1));
}

#[test]
fn list_empty_has_no_hit() {
    let world = HittableList::new();
    let r = Ray::new(v(0, 0, 0), v(0, 0, -1));
    assert!(world.hit(&r, &wide()).is_none());
}

#[test]
fn list_hit_returns_nearest_in_any_order() {
    let near = Sphere::new(v(0, 0, -3), Fx::from_int(1), gray());
    let far = Sphere::new(v(0, 0, -10), Fx::from_int(1), gray());
    let r = Ray::new(v(0, 0, 0), v(0, 0, -1));
    for pair in [[near, far], [far, near]] {
        let mut world = HittableList::new();
        world.add_sphere(pair[0]);
        world.add_sphere(pair[1]);
        let rec = world.hit(&r, &wide()).expect("must hit");
        assert_eq!(rec.t, Fx::from_int(2));
    }
}

#[test]
fn list_tie_keeps_first_sphere() {
    // two identical spheres with different albedos: the shrinking
    // interval is strict, so the first one listed wins the tie
    let red = Material::new_lambertian(v(1, 0, 0));
    let blue = Material::new_lambertian(v(0, 0, 1));
    let mut world = HittableList::new();
    world.add_sphere(Sphere::new(v(0, 0, -3), Fx::from_int(1), red));
    world.add_sphere(Sphere::new(v(0, 0, -3), Fx::from_int(1), blue));
    let r = Ray::new(v(0, 0, 0), v(0, 0, -1));
    let rec = world.hit(&r, &wide()).expect("must hit");
    match rec.material {
        Material::Lambertian { albedo } => assert_eq!(albedo, v(1, 0, 0)),
        _ => panic!("wrong material kind"),
    }
}
