//! The three scattering behaviours.

use rand::rngs::StdRng;
use rand::SeedableRng;
use raytrace::fixed::{Fx, SCALE};
use raytrace::hit_record::HitRecord;
use raytrace::material::Material;
use raytrace::ray::Ray;
use raytrace::vec3::Vec3;

fn v(x: i64, y: i64, z: i64) -> Vec3 {
    Vec3::new(Fx::from_int(x), Fx::from_int(y), Fx::from_int(z))
}

/// A record for a ray going down onto the xz-plane-like surface at
/// the origin, with an upward normal.
fn surface_hit(m: Material) -> (Ray, HitRecord) {
    let r = Ray::new(v(0, 1, 0), v(0, -1, 0));
    let rec = HitRecord::build(Fx::from_int(1), &r, &v(0, 1, 0), m);
    (r, rec)
}

#[test]
fn lambertian_scatter_from_origin_with_sample() {
    let albedo = v(1, 0, 0);
    let m = Material::new_lambertian(albedo);
    let (r, rec) = surface_hit(m);
    let u = v(1, 0, 0);
    let (scattered, attenuation) = m.scatter_lambertian(&r, &rec, u).expect("always scatters");
    assert_eq!(attenuation, albedo);
    assert_eq!(scattered.orig, rec.p);
    assert_eq!(scattered.dir, rec.normal.add(u));
}

#[test]
fn lambertian_degenerate_sample_falls_back_to_normal() {
    let m = Material::new_lambertian(v(1, 0, 0));
    let (r, rec) = surface_hit(m);
    let u = rec.normal.neg();
    let (scattered, _) = m.scatter_lambertian(&r, &rec, u).expect("always scatters");
    assert_eq!(scattered.dir, rec.normal);
}

#[test]
fn lambertian_always_scatters_under_any_rng() {
    let m = Material::new_lambertian(v(1, 0, 0));
    let (r, rec) = surface_hit(m);
    let mut rng = StdRng::seed_from_u64(9);
    for _ in 0..50 {
        assert!(m.scatter(&r, &rec, &mut rng).is_some());
    }
}

#[test]
fn metal_mirror_reflects_up() {
    let albedo = v(1, 1, 1);
    let m = Material::new_metal(albedo, Fx::zero());
    let (r, rec) = surface_hit(m);
    let (scattered, attenuation) = m.scatter_metal(&r, &rec, v(0, 0, 0)).expect("reflects");
    assert_eq!(attenuation, albedo);
    assert_eq!(scattered.dir, v(0, 1, 0));
}

#[test]
fn metal_absorbs_when_fuzz_pushes_below_surface() {
    // full fuzz with a sample pointing straight down drags the
    // reflected direction under the surface: absorbed, and only then
    let m = Material::new_metal(v(1, 1, 1), Fx::one());
    let (r, rec) = surface_hit(m);
    let down = v(0, -2, 0);
    assert!(m.scatter_metal(&r, &rec, down).is_none());
    let up = v(0, 0, 1);
    assert!(m.scatter_metal(&r, &rec, up).is_some());
}

#[test]
fn dielectric_attenuation_is_always_white() {
    let m = Material::new_dielectric(Fx::from_raw(98304));
    let (r, rec) = surface_hit(m);
    let white = Vec3::one();
    for coin_raw in [0i64, 1000, 30000, 65535] {
        let (_, attenuation) = m.scatter_dielectric(&r, &rec, Fx::from_raw(coin_raw))
            .expect("never absorbs");
        assert_eq!(attenuation, white);
    }
    let mut rng = StdRng::seed_from_u64(5);
    for _ in 0..50 {
        let (_, attenuation) = m.scatter(&r, &rec, &mut rng).expect("never absorbs");
        assert_eq!(attenuation, white);
    }
}

#[test]
fn dielectric_head_on_refracts_straight_for_tail_coin() {
    // head-on reflectance is well below one, so a losing coin refracts
    let m = Material::new_dielectric(Fx::from_raw(98304));
    let (r, rec) = surface_hit(m);
    let (scattered, _) = m.scatter_dielectric(&r, &rec, Fx::from_raw(65535)).expect("scatters");
    assert_eq!(scattered.dir.x.raw(), 0);
    assert_eq!(scattered.dir.z.raw(), 0);
    assert!(scattered.dir.y.raw() < 0);
}

#[test]
fn dielectric_total_internal_reflection() {
    // leaving glass at a grazing angle: ratio * sin exceeds one, so
    // the ray must reflect whatever the coin says
    let m = Material::new_dielectric(Fx::from_raw(98304));
    let dir = Vec3::new(Fx::from_raw(58000), Fx::from_raw(30424), Fx::zero());
    let r = Ray::new(v(0, -1, 0), dir);
    // a back-face record, as when exiting the sphere
    let mut rec = HitRecord::new(v(0, 0, 0), Vec3::zero(), Fx::from_int(1), m);
    rec.set_face_normal(&r, &v(0, 1, 0));
    assert!(!rec.front_face);
    let reflected = m.scatter_dielectric(&r, &rec, Fx::from_raw(65535)).expect("scatters");
    // a reflection flips the vertical component and keeps the lateral
    let unit = dir.unit_vector();
    let expect = unit.reflect(&rec.normal);
    assert_eq!(reflected.0.dir, expect);
}

#[test]
fn schlick_reflectance_at_normal_and_grazing() {
    let glass = Fx::from_raw(98304);
    // grazing incidence reflects fully
    assert_eq!(Material::dielectric_reflectance(Fx::zero(), glass).raw(), SCALE);
    // head-on incidence leaves about four percent
    let head_on = Material::dielectric_reflectance(Fx::one(), glass).raw();
    assert_eq!(head_on, 2621);
}
