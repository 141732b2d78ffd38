//! The integrator, the sampler and full renders.

use rand::rngs::StdRng;
use rand::RngCore;
use rand::SeedableRng;
use raytrace::camera::{ray_color, Camera};
use raytrace::fixed::Fx;
use raytrace::hittable_list::HittableList;
use raytrace::material::Material;
use raytrace::ray::Ray;
use raytrace::sphere::Sphere;
use raytrace::vec3::Vec3;

fn v(x: i64, y: i64, z: i64) -> Vec3 {
    Vec3::new(Fx::from_int(x), Fx::from_int(y), Fx::from_int(z))
}

/// The sky gradient, straight from its formula.
fn sky_expected(dir: Vec3) -> Vec3 {
    let unit = dir.unit_vector();
    let a = Fx::from_raw(32768).mul(unit.y).add(Fx::one());
    let white = Vec3::one();
    let blue = Vec3::new(Fx::from_raw(32768), Fx::from_raw(45875), Fx::from_raw(65536));
    white.scale(Fx::one().sub(a)).add(blue.scale(a))
}

fn small_scene() -> HittableList {
    let mut world = HittableList::new();
    world.add_sphere(Sphere::new(
        v(0, 0, -3),
        Fx::from_int(1),
        Material::new_lambertian(v(1, 0, 0)),
    ));
    world.add_sphere(Sphere::new(
        v(2, 0, -3),
        Fx::from_int(1),
        Material::new_metal(v(1, 1, 1), Fx::from_raw(32768)),
    ));
    world.add_sphere(Sphere::new(
        v(-2, 0, -3),
        Fx::from_int(1),
        Material::new_dielectric(Fx::from_raw(98304)),
    ));
    world
}

#[test]
fn miss_returns_sky_gradient_for_many_directions() {
    let world = HittableList::new();
    let mut rng = StdRng::seed_from_u64(1);
    for dir in [
        v(0, 0, -1),
        v(0, 1, 0),
        v(0, -1, 0),
        v(1, 2, 3),
        v(-5, 1, 2),
        Vec3::new(Fx::from_raw(123), Fx::from_raw(-456), Fx::from_raw(789)),
    ] {
        let r = Ray::new(v(0, 0, 0), dir);
        let c = ray_color(&r, 10, &world, &mut rng);
        assert_eq!(c, sky_expected(dir));
    }
}

#[test]
fn sky_gradient_exact_values() {
    let world = HittableList::new();
    let mut rng = StdRng::seed_from_u64(1);
    // level flight sees the far color itself
    let level = ray_color(&Ray::new(v(0, 0, 0), v(0, 0, -1)), 1, &world, &mut rng);
    assert_eq!(level, Vec3::new(Fx::from_raw(32768), Fx::from_raw(45875), Fx::from_raw(65536)));
    // straight up blends past the far color
    let up = ray_color(&Ray::new(v(0, 0, 0), v(0, 1, 0)), 1, &world, &mut rng);
    assert_eq!(up, Vec3::new(Fx::from_raw(16384), Fx::from_raw(36044), Fx::from_raw(65536)));
}

#[test]
fn depth_zero_is_black_everywhere() {
    let empty = HittableList::new();
    let scene = small_scene();
    let mut rng = StdRng::seed_from_u64(2);
    for world in [&empty, &scene] {
        for dir in [v(0, 0, -1), v(1, 1, 1), v(0, -1, 0)] {
            let c = ray_color(&Ray::new(v(0, 0, 0), dir), 0, world, &mut rng);
            assert_eq!(c, Vec3::zero());
        }
    }
}

#[test]
fn absorbed_paths_are_black() {
    // a mirror-down metal plate absorbs a fuzzed ray only through the
    // scatter result; a head-on hit on fuzz-one metal with a downward
    // sample can absorb, but whatever happens the result is bounded by
    // the sky, and depth one on a pure lambertian hit attenuates it
    let mut world = HittableList::new();
    world.add_sphere(Sphere::new(
        v(0, 0, -3),
        Fx::from_int(1),
        Material::new_lambertian(Vec3::zero()),
    ));
    let mut rng = StdRng::seed_from_u64(3);
    // black albedo multiplies whatever bounces: exactly black
    let c = ray_color(&Ray::new(v(0, 0, 0), v(0, 0, -1)), 5, &world, &mut rng);
    assert_eq!(c, Vec3::zero());
}

fn test_camera(width: u32, samples: u32, depth: u32) -> Camera {
    Camera::new(
        Fx::one(),
        width,
        samples,
        depth,
        Fx::from_int(90),
        v(0, 0, 0),
        v(0, 0, -1),
        v(0, 1, 0),
        Fx::zero(),
        Fx::one(),
    )
}

#[test]
fn camera_derives_square_image() {
    let cam = test_camera(2, 1, 1);
    assert_eq!(cam.image_width, 2);
    assert_eq!(cam.image_height, 2);
    // ninety degrees of vertical field at focus one spans about two
    // units of viewport; the pixel grid divides it in two
    assert!(cam.pixel_delta_u.x.raw() > 60000 && cam.pixel_delta_u.x.raw() < 70000);
    assert!(cam.pixel_delta_v.y.raw() < -60000 && cam.pixel_delta_v.y.raw() > -70000);
}

#[test]
fn render_emits_header_and_one_line_per_pixel() {
    let cam = test_camera(3, 1, 2);
    let world = small_scene();
    let mut rng = StdRng::seed_from_u64(11);
    let lines = cam.render(&world, &mut rng);
    assert_eq!(lines.len(), 3 + (cam.image_height as usize) * (cam.image_width as usize));
    assert_eq!(lines[0], "P3");
    assert_eq!(lines[1], "3 3");
    assert_eq!(lines[2], "255");
    for line in &lines[3..] {
        let mut parts = 0;
        for p in line.split(' ') {
            let n: u32 = p.parse().expect("decimal channel");
            assert!(n <= 255);
            parts += 1;
        }
        assert_eq!(parts, 3);
    }
}

#[test]
fn rendering_twice_with_one_seed_is_identical() {
    let cam = test_camera(4, 2, 5);
    let world = small_scene();
    let mut rng_a = StdRng::seed_from_u64(123);
    let mut rng_b = StdRng::seed_from_u64(123);
    let first = cam.render(&world, &mut rng_a);
    let second = cam.render(&world, &mut rng_b);
    assert_eq!(first, second);
    let mut rng_c = StdRng::seed_from_u64(124);
    let third = cam.render(&world, &mut rng_c);
    assert_ne!(first, third);
}

#[test]
fn empty_scene_render_is_the_sky_gradient() {
    // two-by-two, one sample, depth one, nothing to hit: each pixel is
    // the sky formula for its jittered ray, nothing more
    let cam = test_camera(2, 1, 1);
    let world = HittableList::new();
    let mut rng = StdRng::seed_from_u64(7);
    let lines = cam.render(&world, &mut rng);
    assert_eq!(lines.len(), 7);
    assert_eq!(lines[0], "P3");
    assert_eq!(lines[1], "2 2");
    assert_eq!(lines[2], "255");

    // replay the sample stream: two draws per pixel, row-major
    let mut replay = StdRng::seed_from_u64(7);
    let half = Fx::from_raw(32768);
    for j in 0..2u32 {
        for i in 0..2u32 {
            let px = Fx::from_raw((replay.next_u32() >> 16) as i64).sub(half);
            let py = Fx::from_raw((replay.next_u32() >> 16) as i64).sub(half);
            let ray = cam.get_ray(i, j, px, py, Vec3::zero());
            let color = sky_expected(ray.dir);
            let expected = color.to_color_string(1);
            assert_eq!(lines[(3 + j * 2 + i) as usize], expected);
        }
    }
}

#[test]
fn samplers_stay_in_their_ranges() {
    let mut rng = StdRng::seed_from_u64(21);
    let one = Fx::one();
    for _ in 0..40 {
        let r = Vec3::random(&mut rng);
        for c in [r.x, r.y, r.z] {
            assert!(c.raw() >= 0 && c.raw() < 65536);
        }
        let rr = Vec3::random_range(Fx::from_int(-1), one, &mut rng);
        for c in [rr.x, rr.y, rr.z] {
            assert!(c.raw() >= -65536 && c.raw() <= 65536);
        }
        let ball = Vec3::random_in_unit_sphere(&mut rng);
        assert!(ball.length_squared().lt(one));
        let disk = Vec3::random_in_unit_disk(&mut rng);
        assert_eq!(disk.z.raw(), 0);
        assert!(disk.length_squared().lt(one));
    }
}

#[test]
fn unit_vector_sampler_is_unit_length() {
    let mut rng = StdRng::seed_from_u64(22);
    for _ in 0..40 {
        let u = Vec3::random_unit_vector(&mut rng);
        let l = u.length_squared().raw();
        assert!((l - 65536).abs() < 400, "length squared was {l}");
    }
}

#[test]
fn hemisphere_sampler_respects_the_normal() {
    let mut rng = StdRng::seed_from_u64(23);
    let n = v(0, 1, 0);
    for _ in 0..40 {
        let u = Vec3::random_on_hemisphere(&n, &mut rng);
        assert!(u.dot(n).ge(Fx::zero()));
    }
}
