//! The camera: viewing geometry, per-pixel sampling, and the
//! recursive integrator that estimates radiance along a ray.

use crate::fixed::{
    fx_add, fx_div, fx_mul, fx_sub, fx_tan_poly, sat, tdiv, Fx, FX_MAX, PI_FX, SCALE,
};
use crate::hittable_list::{list_hit, HittableList};
use crate::interval::{Interval, IntervalV};
use crate::ppm::{
    is_rgb_line, ppm_dims_line, ppm_dims_string, ppm_magic, ppm_magic_string, ppm_maxval,
    ppm_maxval_string,
};
use crate::ray::{Ray, RayV};
use crate::rng::sample_unit;
use crate::vec3::{
    v3_add, v3_cross, v3_div_s, v3_neg, v3_one, v3_scale, v3_sub, v3_unit, v3_zero, Color, Point3,
    Vec3, V3,
};
use vstd::prelude::*;

verus! {

/// Lower end of the integrator's acceptance interval: about one
/// thousandth, so a scattered ray cannot re-hit the surface it just
/// left through rounding.
pub const T_MIN: i64 = 64;

/// Degrees to radians: multiply by pi over 180.
pub open spec fn deg2rad_spec(d: int) -> int {
    fx_div(fx_mul(d, PI_FX as int), sat(180 * (SCALE as int)))
}

pub fn degrees_to_radians(degrees: Fx) -> (r: Fx)
    ensures
        r@ == deg2rad_spec(degrees@),
{
    degrees.mul(Fx::from_raw(PI_FX)).div(Fx::from_int(180))
}

/// Height of the image: the width over the aspect ratio, truncated,
/// clamped to at least one and to the width type's range.
pub open spec fn image_height_spec(image_width: int, aspect_ratio: int) -> int {
    let t = tdiv(fx_div(sat(image_width * (SCALE as int)), aspect_ratio), SCALE as int);
    if t < 1 {
        1
    } else if t > 0xffff_ffff {
        0xffff_ffff
    } else {
        t
    }
}

/// The mathematical value of a camera, derived state included.
pub ghost struct CameraV {
    pub aspect_ratio: int,
    pub image_width: int,
    pub image_height: int,
    pub center: V3,
    pub pixel00_loc: V3,
    pub pixel_delta_u: V3,
    pub pixel_delta_v: V3,
    pub samples_per_pixel: int,
    pub max_depth: int,
    pub vfov: int,
    pub look_from: V3,
    pub look_at: V3,
    pub vup: V3,
    pub u: V3,
    pub v: V3,
    pub w: V3,
    pub defocus_angle: int,
    pub focus_dist: int,
    pub defocus_disk_u: V3,
    pub defocus_disk_v: V3,
}

/// Everything `Camera::new` derives, in one place: the view basis, the
/// viewport, the pixel grid, and the defocus disk.
pub open spec fn camera_spec(
    aspect_ratio: int,
    image_width: int,
    samples_per_pixel: int,
    max_depth: int,
    vfov: int,
    look_from: V3,
    look_at: V3,
    vup: V3,
    defocus_angle: int,
    focus_dist: int,
) -> CameraV {
    let image_height = image_height_spec(image_width, aspect_ratio);
    let theta = deg2rad_spec(vfov);
    let h = fx_tan_poly(fx_div(theta, sat(2 * (SCALE as int))));
    let viewport_height = fx_mul(fx_mul(sat(2 * (SCALE as int)), h), focus_dist);
    let real_aspect = fx_div(sat(image_width * (SCALE as int)), sat(image_height * (SCALE as int)));
    let viewport_width = fx_mul(viewport_height, real_aspect);
    let w_basis = v3_unit(v3_sub(look_from, look_at));
    let u_basis = v3_unit(v3_cross(vup, w_basis));
    let v_basis = v3_cross(w_basis, u_basis);
    let viewport_u = v3_scale(u_basis, viewport_width);
    let viewport_v = v3_scale(v3_neg(v_basis), viewport_height);
    let pixel_delta_u = v3_div_s(viewport_u, sat(image_width * (SCALE as int)));
    let pixel_delta_v = v3_div_s(viewport_v, sat(image_height * (SCALE as int)));
    let upper_left = v3_sub(
        v3_sub(v3_sub(look_from, v3_scale(w_basis, focus_dist)), v3_scale(viewport_u, 32768)),
        v3_scale(viewport_v, 32768),
    );
    let pixel00_loc = v3_add(upper_left, v3_scale(v3_add(pixel_delta_u, pixel_delta_v), 32768));
    let defocus_radius = fx_mul(
        focus_dist,
        fx_tan_poly(fx_div(deg2rad_spec(defocus_angle), sat(2 * (SCALE as int)))),
    );
    CameraV {
        aspect_ratio,
        image_width,
        image_height,
        center: look_from,
        pixel00_loc,
        pixel_delta_u,
        pixel_delta_v,
        samples_per_pixel,
        max_depth,
        vfov,
        look_from,
        look_at,
        vup,
        u: u_basis,
        v: v_basis,
        w: w_basis,
        defocus_angle,
        focus_dist,
        defocus_disk_u: v3_scale(u_basis, defocus_radius),
        defocus_disk_v: v3_scale(v_basis, defocus_radius),
    }
}

pub struct Camera {
    pub aspect_ratio: Fx,
    pub image_width: u32,
    pub image_height: u32,
    pub center: Point3,
    pub pixel00_loc: Vec3,
    pub pixel_delta_u: Vec3,
    pub pixel_delta_v: Vec3,
    pub samples_per_pixel: u32,
    pub max_depth: u32,
    pub vfov: Fx,
    pub look_from: Point3,
    pub look_at: Point3,
    pub vup: Vec3,
    pub u: Vec3,
    pub v: Vec3,
    pub w: Vec3,
    pub defocus_angle: Fx,
    pub focus_dist: Fx,
    pub defocus_disk_u: Vec3,
    pub defocus_disk_v: Vec3,
}

impl View for Camera {
    type V = CameraV;

    open spec fn view(&self) -> CameraV {
        CameraV {
            aspect_ratio: self.aspect_ratio@,
            image_width: self.image_width as int,
            image_height: self.image_height as int,
            center: self.center@,
            pixel00_loc: self.pixel00_loc@,
            pixel_delta_u: self.pixel_delta_u@,
            pixel_delta_v: self.pixel_delta_v@,
            samples_per_pixel: self.samples_per_pixel as int,
            max_depth: self.max_depth as int,
            vfov: self.vfov@,
            look_from: self.look_from@,
            look_at: self.look_at@,
            vup: self.vup@,
            u: self.u@,
            v: self.v@,
            w: self.w@,
            defocus_angle: self.defocus_angle@,
            focus_dist: self.focus_dist@,
            defocus_disk_u: self.defocus_disk_u@,
            defocus_disk_v: self.defocus_disk_v@,
        }
    }
}

/// The deterministic ray toward pixel `(i, j)`, for explicit jitter
/// offsets and lens-disk sample.
pub open spec fn get_ray_spec(c: CameraV, i: int, j: int, px: int, py: int, lens: V3) -> RayV {
    let pixel_center = v3_add(
        v3_add(c.pixel00_loc, v3_scale(c.pixel_delta_u, sat(i * (SCALE as int)))),
        v3_scale(c.pixel_delta_v, sat(j * (SCALE as int))),
    );
    let pixel_sample = v3_add(
        pixel_center,
        v3_add(v3_scale(c.pixel_delta_u, px), v3_scale(c.pixel_delta_v, py)),
    );
    let ray_origin = if c.defocus_angle > 0 {
        v3_add(
            v3_add(c.center, v3_scale(c.defocus_disk_u, lens.x)),
            v3_scale(c.defocus_disk_v, lens.y),
        )
    } else {
        c.center
    };
    RayV { orig: ray_origin, dir: v3_sub(pixel_sample, ray_origin) }
}

/// The background gradient: a vertical blend from white toward blue,
/// driven by the unit direction's height.
pub open spec fn sky_color_spec(r: RayV) -> V3 {
    let unit = v3_unit(r.dir);
    let a = fx_add(fx_mul(32768, unit.y), SCALE as int);
    v3_add(v3_scale(v3_one(), fx_sub(SCALE as int, a)), v3_scale(sky_blue(), a))
}

/// The sky's far color: half red, seven tenths green, full blue.
pub open spec fn sky_blue() -> V3 {
    V3 { x: 32768, y: 45875, z: 65536 }
}

/// The integrator's acceptance interval: from the self-intersection
/// guard out to the largest scalar.
pub open spec fn shadow_interval() -> IntervalV {
    IntervalV { min: T_MIN as int, max: FX_MAX as int }
}

/// Estimated radiance along `r`: black once the recursion budget is
/// exhausted, the sky on a miss, and otherwise the scattered ray's
/// radiance attenuated by the surface color, or black on absorption.
pub fn ray_color(r: &Ray, depth: u32, world: &HittableList, rng: &mut rand::rngs::StdRng) -> (c:
    Color)
    ensures
        depth == 0 ==> c@ == v3_zero(),
        depth > 0 && list_hit(world@, r@, shadow_interval()) is None ==> c@ == sky_color_spec(r@),
    decreases depth,
{
    if depth == 0 {
        return Vec3::zero();
    }
    let guard = Interval::new(Fx::from_raw(T_MIN), Fx::from_raw(FX_MAX));
    let hit_record_option = world.hit(r, &guard);
    match hit_record_option {
        Some(hit_record) => {
            let scatter_option = hit_record.material.scatter(r, &hit_record, rng);
            match scatter_option {
                Some((scattered, attenuation)) => {
                    let bounced = ray_color(&scattered, depth - 1, world, rng);
                    attenuation.mul(bounced)
                },
                None => Vec3::zero(),
            }
        },
        None => {
            let half = Fx::from_raw(32768);
            let unit = r.dir.unit_vector();
            let a = half.mul(unit.y).add(Fx::one());
            let white = Vec3::one();
            let blue = Vec3::new(Fx::from_raw(32768), Fx::from_raw(45875), Fx::from_raw(65536));
            white.scale(Fx::one().sub(a)).add(blue.scale(a))
        },
    }
}

impl Camera {
    /// Derive the full viewing state from the configuration.
    pub fn new(
        aspect_ratio: Fx,
        image_width: u32,
        samples_per_pixel: u32,
        max_depth: u32,
        vfov: Fx,
        look_from: Point3,
        look_at: Point3,
        vup: Vec3,
        defocus_angle: Fx,
        focus_dist: Fx,
    ) -> (cam: Camera)
        ensures
            cam@ == camera_spec(
                aspect_ratio@,
                image_width as int,
                samples_per_pixel as int,
                max_depth as int,
                vfov@,
                look_from@,
                look_at@,
                vup@,
                defocus_angle@,
                focus_dist@,
            ),
    {
        let width_fx = Fx::from_int(image_width as i64);
        let t: i64 = width_fx.div(aspect_ratio).trunc();
        let image_height: u32 = if t < 1 {
            1
        } else if t > 0xffff_ffff {
            0xffff_ffff
        } else {
            t as u32
        };
        let height_fx = Fx::from_int(image_height as i64);
        let two = Fx::from_int(2);
        let half = Fx::from_raw(32768);

        let theta = degrees_to_radians(vfov);
        let h = theta.div(two).tan_poly();
        let viewport_height = two.mul(h).mul(focus_dist);
        let real_aspect = width_fx.div(height_fx);
        let viewport_width = viewport_height.mul(real_aspect);

        let w_basis = look_from.sub(look_at).unit_vector();
        let u_basis = vup.cross(w_basis).unit_vector();
        let v_basis = w_basis.cross(u_basis);

        let viewport_u = u_basis.scale(viewport_width);
        let viewport_v = v_basis.neg().scale(viewport_height);

        let pixel_delta_u = viewport_u.div(width_fx);
        let pixel_delta_v = viewport_v.div(height_fx);

        let viewport_upper_left = look_from.sub(w_basis.scale(focus_dist)).sub(
            viewport_u.scale(half),
        ).sub(viewport_v.scale(half));
        let pixel00_loc = viewport_upper_left.add(pixel_delta_u.add(pixel_delta_v).scale(half));

        let defocus_radius = focus_dist.mul(degrees_to_radians(defocus_angle).div(two).tan_poly());
        let defocus_disk_u = u_basis.scale(defocus_radius);
        let defocus_disk_v = v_basis.scale(defocus_radius);

        Camera {
            aspect_ratio,
            image_width,
            image_height,
            center: look_from,
            pixel00_loc,
            pixel_delta_u,
            pixel_delta_v,
            samples_per_pixel,
            max_depth,
            vfov,
            look_from,
            look_at,
            vup,
            u: u_basis,
            v: v_basis,
            w: w_basis,
            defocus_angle,
            focus_dist,
            defocus_disk_u,
            defocus_disk_v,
        }
    }

    /// The deterministic ray toward pixel `(i, j)` for explicit jitter
    /// offsets and lens-disk sample: the origin sits on the defocus
    /// disk when one is configured, and the direction reaches the
    /// jittered point of the pixel's footprint.
    pub fn get_ray(&self, i: u32, j: u32, px: Fx, py: Fx, lens: Vec3) -> (r: Ray)
        ensures
            r@ == get_ray_spec(self@, i as int, j as int, px@, py@, lens@),
    {
        let pixel_center = self.pixel00_loc.add(
            self.pixel_delta_u.scale(Fx::from_int(i as i64)),
        ).add(self.pixel_delta_v.scale(Fx::from_int(j as i64)));
        let pixel_sample = pixel_center.add(
            self.pixel_delta_u.scale(px).add(self.pixel_delta_v.scale(py)),
        );
        let ray_origin = if self.defocus_angle.gt(Fx::zero()) {
            self.center.add(self.defocus_disk_u.scale(lens.x)).add(
                self.defocus_disk_v.scale(lens.y),
            )
        } else {
            self.center
        };
        Ray::new(ray_origin, pixel_sample.sub(ray_origin))
    }

    /// One sampled ray toward pixel `(i, j)`: jitter uniform in the
    /// pixel footprint, and a lens-disk sample when defocus is on.
    fn sample_ray(&self, i: u32, j: u32, rng: &mut rand::rngs::StdRng) -> (r: Ray)
        ensures
            exists|px: int, py: int, lens: V3|
                r@ == #[trigger] get_ray_spec(self@, i as int, j as int, px, py, lens)
                    && -32768 <= px < 32768 && -32768 <= py < 32768,
    {
        let half = Fx::from_raw(32768);
        let px = sample_unit(rng).sub(half);
        let py = sample_unit(rng).sub(half);
        let lens = if self.defocus_angle.gt(Fx::zero()) {
            Vec3::random_in_unit_disk(rng)
        } else {
            Vec3::zero()
        };
        let r = self.get_ray(i, j, px, py, lens);
        proof {
            assert(r@ == get_ray_spec(self@, i as int, j as int, px@, py@, lens@)
                && -32768 <= px@ < 32768 && -32768 <= py@ < 32768);
        }
        r
    }

    /// Render the scene: the three header lines of the text raster,
    /// then one pixel line per pixel, row-major, top row first.
    pub fn render(&self, world: &HittableList, rng: &mut rand::rngs::StdRng) -> (lines: Vec<
        String,
    >)
        ensures
            lines@.len() == 3 + (self.image_height as int) * (self.image_width as int),
            lines@[0]@ == ppm_magic(),
            lines@[1]@ == ppm_dims_line(self.image_width as nat, self.image_height as nat),
            lines@[2]@ == ppm_maxval(),
            forall|k: int| 3 <= k < lines@.len() ==> is_rgb_line(#[trigger] lines@[k]@),
    {
        let mut lines: Vec<String> = Vec::new();
        lines.push(ppm_magic_string());
        lines.push(ppm_dims_string(self.image_width, self.image_height));
        lines.push(ppm_maxval_string());
        let mut j: u32 = 0;
        while j < self.image_height
            invariant
                j <= self.image_height,
                lines@.len() == 3 + (j as int) * (self.image_width as int),
                lines@[0]@ == ppm_magic(),
                lines@[1]@ == ppm_dims_line(self.image_width as nat, self.image_height as nat),
                lines@[2]@ == ppm_maxval(),
                forall|k: int| 3 <= k < lines@.len() ==> is_rgb_line(#[trigger] lines@[k]@),
            decreases self.image_height - j,
        {
            let mut i: u32 = 0;
            while i < self.image_width
                invariant
                    i <= self.image_width,
                    j < self.image_height,
                    lines@.len() == 3 + (j as int) * (self.image_width as int) + i as int,
                    lines@[0]@ == ppm_magic(),
                    lines@[1]@ == ppm_dims_line(
                        self.image_width as nat,
                        self.image_height as nat,
                    ),
                    lines@[2]@ == ppm_maxval(),
                    forall|k: int| 3 <= k < lines@.len() ==> is_rgb_line(#[trigger] lines@[k]@),
                decreases self.image_width - i,
            {
                let mut pixel_color = Vec3::zero();
                let mut s: u32 = 0;
                while s < self.samples_per_pixel
                    decreases self.samples_per_pixel - s,
                {
                    let ray = self.sample_ray(i, j, rng);
                    let sampled = ray_color(&ray, self.max_depth, world, rng);
                    pixel_color = pixel_color.add(sampled);
                    s = s + 1;
                }
                let line = pixel_color.to_color_string(self.samples_per_pixel);
                lines.push(line);
                i = i + 1;
            }
            proof {
                assert((j as int + 1) * (self.image_width as int) == (j as int) * (
                self.image_width as int) + (self.image_width as int)) by (nonlinear_arith);
            }
            j = j + 1;
        }
        proof {
            assert((j as int) == (self.image_height as int));
        }
        lines
    }
}

} // verus!
