//! The result of a successful ray-surface intersection.

use crate::fixed::Fx;
use crate::material::Material;
use crate::ray::{ray_at, Ray, RayV};
use crate::vec3::{lemma_v3_dot_neg, v3_dot, v3_in_range, v3_neg, Point3, Vec3, V3};
use vstd::prelude::*;

verus! {

/// The mathematical value of a hit record.  The material rides along
/// unchanged: it is already plain value data.
pub ghost struct HitV {
    pub p: V3,
    pub normal: V3,
    pub t: int,
    pub front_face: bool,
    pub material: Material,
}

pub struct HitRecord {
    pub p: Point3,
    pub normal: Vec3,
    pub t: Fx,
    pub front_face: bool,
    pub material: Material,
}

impl View for HitRecord {
    type V = HitV;

    open spec fn view(&self) -> HitV {
        HitV {
            p: self.p@,
            normal: self.normal@,
            t: self.t@,
            front_face: self.front_face,
            material: self.material,
        }
    }
}

/// The view of an optional hit record.
pub open spec fn opt_hit_view(o: Option<HitRecord>) -> Option<HitV> {
    match o {
        Some(h) => Some(h@),
        None => None,
    }
}

/// Whether the geometric outward normal already opposes the ray.
pub open spec fn hit_front_face(r: RayV, outward: V3) -> bool {
    v3_dot(r.dir, outward) < 0
}

/// The record for parameter `t` on ray `r`, with the normal oriented
/// against the ray.
pub open spec fn hit_build(t: int, r: RayV, outward: V3, material: Material) -> HitV {
    HitV {
        p: ray_at(r, t),
        normal: if hit_front_face(r, outward) {
            outward
        } else {
            v3_neg(outward)
        },
        t: t,
        front_face: hit_front_face(r, outward),
        material: material,
    }
}

/// An oriented normal never points with the ray that produced it.
pub proof fn lemma_built_normal_opposes(t: int, r: RayV, outward: V3, material: Material)
    requires
        v3_in_range(r.dir),
        v3_in_range(outward),
    ensures
        v3_dot(r.dir, hit_build(t, r, outward, material).normal) <= 0,
{
    if !hit_front_face(r, outward) {
        lemma_v3_dot_neg(r.dir, outward);
    }
}

impl HitRecord {
    /// A record with the given fields, not yet oriented: `front_face`
    /// starts out false.
    pub fn new(p: Point3, normal: Vec3, t: Fx, material: Material) -> (r: HitRecord)
        ensures
            r@ == (HitV { p: p@, normal: normal@, t: t@, front_face: false, material }),
    {
        HitRecord { p, normal, t, front_face: false, material }
    }

    /// The record for parameter `t` on ray `r`, with the normal
    /// oriented against the ray.
    pub fn build(t: Fx, r: &Ray, outward_normal: &Vec3, material: Material) -> (rec: HitRecord)
        ensures
            rec@ == hit_build(t@, r@, outward_normal@, material),
            v3_dot(r@.dir, rec@.normal) <= 0,
    {
        proof {
            use_type_invariant(r.dir.x);
            use_type_invariant(r.dir.y);
            use_type_invariant(r.dir.z);
            use_type_invariant(outward_normal.x);
            use_type_invariant(outward_normal.y);
            use_type_invariant(outward_normal.z);
            lemma_built_normal_opposes(t@, r@, outward_normal@, material);
        }
        let front_face = r.dir.dot(*outward_normal).lt(Fx::zero());
        let normal = if front_face {
            *outward_normal
        } else {
            outward_normal.neg()
        };
        HitRecord { p: r.at(t), normal, t, front_face, material }
    }

    /// Re-orient an existing record against ray `r`.
    pub fn set_face_normal(&mut self, r: &Ray, outward_normal: &Vec3)
        ensures
            final(self).front_face == hit_front_face(r@, outward_normal@),
            final(self).normal@ == if hit_front_face(r@, outward_normal@) {
                outward_normal@
            } else {
                v3_neg(outward_normal@)
            },
            final(self).p == old(self).p,
            final(self).t == old(self).t,
            final(self).material == old(self).material,
            v3_dot(r@.dir, final(self).normal@) <= 0,
    {
        proof {
            use_type_invariant(r.dir.x);
            use_type_invariant(r.dir.y);
            use_type_invariant(r.dir.z);
            use_type_invariant(outward_normal.x);
            use_type_invariant(outward_normal.y);
            use_type_invariant(outward_normal.z);
            if !hit_front_face(r@, outward_normal@) {
                lemma_v3_dot_neg(r@.dir, outward_normal@);
            }
        }
        self.front_face = r.dir.dot(*outward_normal).lt(Fx::zero());
        self.normal = if self.front_face {
            *outward_normal
        } else {
            outward_normal.neg()
        };
    }
}

} // verus!
