//! The scattering model: a closed union of the three surface kinds.
//!
//! Each kind has a deterministic scattering function that takes its
//! random samples as explicit arguments and carries an exact
//! contract; the dispatching `scatter` draws the samples and states
//! what holds of every possible outcome.

use crate::fixed::{
    fx_add, fx_div, fx_min, fx_mul, fx_neg, fx_sqrt, fx_sub, Fx, SCALE,
};
use crate::hit_record::{HitRecord, HitV};
use crate::ray::{Ray, RayV};
use crate::vec3::{
    v3_add, v3_dot, v3_near_zero, v3_neg, v3_one, v3_reflect, v3_refract, v3_scale, v3_unit,
    Color, Vec3, V3,
};
use vstd::prelude::*;

verus! {

/// A surface's scattering behaviour: plain value data, copied freely.
#[derive(Clone, Copy, Debug)]
pub enum Material {
    Lambertian { albedo: Color },
    Metal { albedo: Color, fuzz: Fx },
    Dielectric { ir: Fx },
}

/// The view of an optional scattered ray and attenuation.
pub open spec fn scatter_view(o: Option<(Ray, Color)>) -> Option<(RayV, V3)> {
    match o {
        Some((r, c)) => Some((r@, c@)),
        None => None,
    }
}

/// Diffuse scattering: the normal nudged by a sampled unit vector,
/// falling back to the bare normal when the sum cancels to zero.
pub open spec fn lambertian_scatter_spec(albedo: V3, rec: HitV, u: V3) -> (RayV, V3) {
    let d = v3_add(rec.normal, u);
    let dir = if v3_near_zero(d) {
        rec.normal
    } else {
        d
    };
    (RayV { orig: rec.p, dir: dir }, albedo)
}

/// The mirrored unit direction, perturbed by `fuzz` times a sampled
/// unit vector.
pub open spec fn metal_scatter_dir(dir_in: V3, normal: V3, fuzz: int, u: V3) -> V3 {
    v3_add(v3_reflect(v3_unit(dir_in), normal), v3_scale(u, fuzz))
}

/// Metallic scattering: absorbed exactly when the perturbed mirror
/// direction no longer leaves the surface.
pub open spec fn metal_scatter_spec(albedo: V3, fuzz: int, r_in: RayV, rec: HitV, u: V3) -> Option<
    (RayV, V3),
> {
    let d = metal_scatter_dir(r_in.dir, rec.normal, fuzz, u);
    if v3_dot(d, rec.normal) > 0 {
        Some((RayV { orig: rec.p, dir: d }, albedo))
    } else {
        None
    }
}

/// The fifth power, by squaring.
pub open spec fn pow5_spec(x: int) -> int {
    let x2 = fx_mul(x, x);
    let x4 = fx_mul(x2, x2);
    fx_mul(x4, x)
}

/// Schlick's approximation of the Fresnel reflectance coefficient.
pub open spec fn reflectance_spec(cosine: int, ref_idx: int) -> int {
    let r0_base = fx_div(fx_sub(SCALE as int, ref_idx), fx_add(SCALE as int, ref_idx));
    let r0 = fx_mul(r0_base, r0_base);
    fx_add(r0, fx_mul(fx_sub(SCALE as int, r0), pow5_spec(fx_sub(SCALE as int, cosine))))
}

/// Dielectric scattering: reflect on total internal reflection or when
/// the sampled coin falls under the Schlick reflectance, else refract;
/// the attenuation is always white.
pub open spec fn dielectric_scatter_spec(ir: int, r_in: RayV, rec: HitV, coin: int) -> (RayV, V3) {
    let ratio = if rec.front_face {
        fx_div(SCALE as int, ir)
    } else {
        ir
    };
    let unit = v3_unit(r_in.dir);
    let cos_theta = fx_min(v3_dot(v3_neg(unit), rec.normal), SCALE as int);
    let sin_theta = fx_sqrt(fx_sub(SCALE as int, fx_mul(cos_theta, cos_theta)));
    if fx_mul(ratio, sin_theta) > SCALE as int || reflectance_spec(cos_theta, ratio) > coin {
        (RayV { orig: rec.p, dir: v3_reflect(unit, rec.normal) }, v3_one())
    } else {
        (RayV { orig: rec.p, dir: v3_refract(unit, rec.normal, ratio) }, v3_one())
    }
}

/// What any call of `scatter` guarantees of its outcome, whatever was
/// sampled: diffuse surfaces always scatter with their albedo,
/// metallic ones only along directions that leave the surface, and
/// dielectric ones always scatter without attenuating.
pub open spec fn scatter_post(m: Material, rec: HitV, res: Option<(RayV, V3)>) -> bool {
    match m {
        Material::Lambertian { albedo } => res matches Some(rc) && rc.0.orig == rec.p
            && rc.1 == albedo@,
        Material::Metal { albedo, fuzz } => match res {
            Some(rc) => rc.0.orig == rec.p && rc.1 == albedo@ && v3_dot(rc.0.dir, rec.normal) > 0,
            None => true,
        },
        Material::Dielectric { ir } => res matches Some(rc) && rc.0.orig == rec.p && rc.1
            == v3_one(),
    }
}

impl Material {
    /// A diffuse surface with the given albedo.
    pub fn new_lambertian(color: Color) -> (r: Material)
        ensures
            r == (Material::Lambertian { albedo: color }),
    {
        Material::Lambertian { albedo: color }
    }

    /// A metallic surface; `fuzz` scales glossiness from mirror-like
    /// at zero to diffuse-like near one.
    pub fn new_metal(color: Color, fuzz: Fx) -> (r: Material)
        requires
            0 <= fuzz@ <= SCALE as int,
        ensures
            r == (Material::Metal { albedo: color, fuzz }),
    {
        Material::Metal { albedo: color, fuzz }
    }

    /// A clear surface with the given refractive index.
    pub fn new_dielectric(ir: Fx) -> (r: Material)
        requires
            ir@ > 0,
        ensures
            r == (Material::Dielectric { ir }),
    {
        Material::Dielectric { ir }
    }

    /// Diffuse scattering with an explicit sampled unit vector.
    pub fn scatter_lambertian(&self, _r_in: &Ray, rec: &HitRecord, unit_sample: Vec3) -> (res:
        Option<(Ray, Color)>)
        requires
            self is Lambertian,
        ensures
            scatter_view(res) == Some(
                lambertian_scatter_spec(self->Lambertian_albedo@, rec@, unit_sample@),
            ),
            res is Some,
    {
        let albedo = match *self {
            Material::Lambertian { albedo } => albedo,
            _ => Vec3::zero(),
        };
        let sum = rec.normal.add(unit_sample);
        let scatter_direction = if sum.near_zero() {
            rec.normal
        } else {
            sum
        };
        Some((Ray::new(rec.p, scatter_direction), albedo))
    }

    /// Metallic scattering with an explicit sampled unit vector; the
    /// result is absent exactly when the perturbed mirror direction
    /// has a non-positive dot product with the normal.
    pub fn scatter_metal(&self, r_in: &Ray, rec: &HitRecord, unit_sample: Vec3) -> (res: Option<
        (Ray, Color),
    >)
        requires
            self is Metal,
        ensures
            scatter_view(res) == metal_scatter_spec(
                self->Metal_albedo@,
                self->Metal_fuzz@,
                r_in@,
                rec@,
                unit_sample@,
            ),
            res is None <==> v3_dot(
                metal_scatter_dir(r_in@.dir, rec@.normal, self->Metal_fuzz@, unit_sample@),
                rec@.normal,
            ) <= 0,
    {
        let (albedo, fuzz) = match *self {
            Material::Metal { albedo, fuzz } => (albedo, fuzz),
            _ => (Vec3::zero(), Fx::zero()),
        };
        let reflected = r_in.dir.unit_vector().reflect(&rec.normal);
        let dir = reflected.add(unit_sample.scale(fuzz));
        if dir.dot(rec.normal).gt(Fx::zero()) {
            Some((Ray::new(rec.p, dir), albedo))
        } else {
            None
        }
    }

    /// Schlick's reflectance approximation.
    pub fn dielectric_reflectance(cosine: Fx, ref_idx: Fx) -> (r: Fx)
        ensures
            r@ == reflectance_spec(cosine@, ref_idx@),
    {
        let one = Fx::one();
        let r0_base = one.sub(ref_idx).div(one.add(ref_idx));
        let r0 = r0_base.mul(r0_base);
        let m = one.sub(cosine);
        let m2 = m.mul(m);
        let m4 = m2.mul(m2);
        r0.add(one.sub(r0).mul(m4.mul(m)))
    }

    /// Dielectric scattering with an explicit coin sample from
    /// `[0, 1)`; always scatters, and never attenuates.
    pub fn scatter_dielectric(&self, r_in: &Ray, rec: &HitRecord, coin: Fx) -> (res: Option<
        (Ray, Color),
    >)
        requires
            self is Dielectric,
        ensures
            scatter_view(res) == Some(
                dielectric_scatter_spec(self->Dielectric_ir@, r_in@, rec@, coin@),
            ),
            res matches Some(rc) && rc.1@ == v3_one(),
    {
        let ir = match *self {
            Material::Dielectric { ir } => ir,
            _ => Fx::one(),
        };
        let one = Fx::one();
        let attenuation = Vec3::one();
        let refraction_ratio = if rec.front_face {
            one.div(ir)
        } else {
            ir
        };
        let unit_direction = r_in.dir.unit_vector();
        let cos_theta = unit_direction.neg().dot(rec.normal).min(one);
        let sin_theta = one.sub(cos_theta.mul(cos_theta)).sqrt();
        let cannot_refract = refraction_ratio.mul(sin_theta).gt(one);
        if cannot_refract
            || Material::dielectric_reflectance(cos_theta, refraction_ratio).gt(coin) {
            let reflected = unit_direction.reflect(&rec.normal);
            Some((Ray::new(rec.p, reflected), attenuation))
        } else {
            let refracted = unit_direction.refract(&rec.normal, refraction_ratio);
            Some((Ray::new(rec.p, refracted), attenuation))
        }
    }

    /// Scatter an incoming ray at a hit, drawing whatever samples the
    /// surface kind needs.
    pub fn scatter(&self, r_in: &Ray, rec: &HitRecord, rng: &mut rand::rngs::StdRng) -> (res:
        Option<(Ray, Color)>)
        ensures
            scatter_post(*self, rec@, scatter_view(res)),
    {
        match *self {
            Material::Lambertian { albedo: _ } => {
                let u = Vec3::random_unit_vector(rng);
                self.scatter_lambertian(r_in, rec, u)
            },
            Material::Metal { albedo: _, fuzz: _ } => {
                let u = Vec3::random_unit_vector(rng);
                self.scatter_metal(r_in, rec, u)
            },
            Material::Dielectric { ir: _ } => {
                let coin = crate::rng::sample_unit(rng);
                self.scatter_dielectric(r_in, rec, coin)
            },
        }
    }
}

} // verus!
