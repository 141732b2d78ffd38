//! Spheres and their intersection algorithm.

use crate::fixed::{fx_add, fx_div, fx_mul, fx_neg, fx_sqrt, fx_sub, Fx};
use crate::hit_record::{hit_build, opt_hit_view, HitRecord, HitV};
use crate::interval::{iv_surrounds, Interval, IntervalV};
use crate::material::Material;
use crate::ray::{ray_at, Ray, RayV};
use crate::vec3::{v3_div_s, v3_dot, v3_len_sq, v3_sub, Point3, V3};
use vstd::prelude::*;

verus! {

/// The mathematical value of a sphere.
pub ghost struct SphereV {
    pub center: V3,
    pub radius: int,
    pub material: Material,
}

/// A sphere: the radius may be negative to describe a hollow shell
/// whose surface normal points inward.
#[derive(Clone, Copy, Debug)]
pub struct Sphere {
    pub center: Point3,
    pub radius: Fx,
    pub material: Material,
}

impl View for Sphere {
    type V = SphereV;

    open spec fn view(&self) -> SphereV {
        SphereV { center: self.center@, radius: self.radius@, material: self.material }
    }
}

/// The outward normal at parameter `t`: the offset from the center
/// scaled by the reciprocal radius, whose sign flips it inward for
/// hollow shells.  A zero radius yields the zero vector, as division
/// by zero yields zero.
pub open spec fn sphere_outward_normal(s: SphereV, r: RayV, t: int) -> V3 {
    v3_div_s(v3_sub(ray_at(r, t), s.center), s.radius)
}

/// The quadratic solution for ray `r` against sphere `s`: no result
/// when the discriminant is negative or the direction's quantized
/// length is zero; otherwise the near root, or failing the interval
/// test the far root, or failing both no result.  Taking the near
/// root first picks the nearest surface within the interval, not
/// merely any root.
pub open spec fn sphere_hit(s: SphereV, r: RayV, i: IntervalV) -> Option<HitV> {
    let oc = v3_sub(r.orig, s.center);
    let a = v3_len_sq(r.dir);
    let half_b = v3_dot(oc, r.dir);
    let c = fx_sub(v3_len_sq(oc), fx_mul(s.radius, s.radius));
    let disc = fx_sub(fx_mul(half_b, half_b), fx_mul(a, c));
    if disc < 0 {
        None
    } else if a == 0 {
        None
    } else {
        let sqrtd = fx_sqrt(disc);
        let near = fx_div(fx_sub(fx_neg(half_b), sqrtd), a);
        let far = fx_div(fx_add(fx_neg(half_b), sqrtd), a);
        let root = if iv_surrounds(i, near) {
            near
        } else {
            far
        };
        if iv_surrounds(i, root) {
            Some(hit_build(root, r, sphere_outward_normal(s, r, root), s.material))
        } else {
            None
        }
    }
}

impl Sphere {
    pub fn new(center: Point3, radius: Fx, material: Material) -> (r: Sphere)
        ensures
            r@ == (SphereV { center: center@, radius: radius@, material }),
    {
        Sphere { center, radius, material }
    }

    /// The nearest intersection of `r` with this sphere strictly
    /// inside `ray_t`, if any.
    pub fn hit(&self, r: &Ray, ray_t: &Interval) -> (res: Option<HitRecord>)
        ensures
            opt_hit_view(res) == sphere_hit(self@, r@, ray_t@),
            res matches Some(rec) ==> iv_surrounds(ray_t@, rec@.t) && v3_dot(
                r@.dir,
                rec@.normal,
            ) <= 0,
    {
        let oc = r.orig.sub(self.center);
        let a = r.dir.length_squared();
        let half_b = oc.dot(r.dir);
        let c = oc.length_squared().sub(self.radius.mul(self.radius));
        let discriminant = half_b.mul(half_b).sub(a.mul(c));
        if discriminant.lt(Fx::zero()) {
            return None;
        }
        if a.raw() == 0 {
            return None;
        }
        let sqrtd = discriminant.sqrt();
        let mut root = half_b.neg().sub(sqrtd).div(a);
        if !ray_t.surrounds(root) {
            root = half_b.neg().add(sqrtd).div(a);
            if !ray_t.surrounds(root) {
                return None;
            }
        }
        let p = r.at(root);
        let outward_normal = p.sub(self.center).div(self.radius);
        Some(HitRecord::build(root, r, &outward_normal, self.material))
    }
}

} // verus!
