//! Rays: an origin with a direction, evaluated parametrically.

use crate::fixed::Fx;
use crate::vec3::{v3_add, v3_scale, Point3, Vec3, V3};
use vstd::prelude::*;

verus! {

/// The mathematical value of a ray.
pub ghost struct RayV {
    pub orig: V3,
    pub dir: V3,
}

#[derive(Clone, Copy, Debug)]
pub struct Ray {
    pub orig: Point3,
    pub dir: Vec3,
}

impl View for Ray {
    type V = RayV;

    open spec fn view(&self) -> RayV {
        RayV { orig: self.orig@, dir: self.dir@ }
    }
}

/// The point `orig + dir * t`.  The parameter may be negative: rays
/// are solved as full lines and filtered by an acceptance interval.
pub open spec fn ray_at(r: RayV, t: int) -> V3 {
    v3_add(r.orig, v3_scale(r.dir, t))
}

impl Ray {
    pub fn new(orig: Point3, dir: Vec3) -> (r: Ray)
        ensures
            r@ == (RayV { orig: orig@, dir: dir@ }),
    {
        Ray { orig, dir }
    }

    pub fn at(&self, t: Fx) -> (p: Point3)
        ensures
            p@ == ray_at(self@, t@),
    {
        self.orig.add(self.dir.scale(t))
    }
}

} // verus!
