//! An ordered collection of spheres, searched for the nearest hit.

use crate::fixed::Fx;
use crate::hit_record::{opt_hit_view, HitRecord, HitV};
use crate::interval::{iv_surrounds, Interval, IntervalV};
use crate::ray::{Ray, RayV};
use crate::sphere::{sphere_hit, Sphere, SphereV};
use crate::vec3::v3_dot;
use vstd::prelude::*;

verus! {

/// The nearest-hit search over the remaining spheres: each sphere is
/// tested against an interval whose upper end has shrunk to the best
/// parameter found so far, so a later sphere must strictly beat the
/// current best, and ties keep the earlier sphere.
pub open spec fn list_hit_from(
    spheres: Seq<SphereV>,
    r: RayV,
    t_min: int,
    closest: int,
    best: Option<HitV>,
) -> Option<HitV>
    decreases spheres.len(),
{
    if spheres.len() == 0 {
        best
    } else {
        match sphere_hit(spheres[0], r, IntervalV { min: t_min, max: closest }) {
            Some(h) => list_hit_from(
                spheres.subrange(1, spheres.len() as int),
                r,
                t_min,
                h.t,
                Some(h),
            ),
            None => list_hit_from(spheres.subrange(1, spheres.len() as int), r, t_min, closest, best),
        }
    }
}

/// The nearest hit of `r` in the whole collection within `i`.
pub open spec fn list_hit(spheres: Seq<SphereV>, r: RayV, i: IntervalV) -> Option<HitV> {
    list_hit_from(spheres, r, i.min, i.max, None)
}

#[derive(Clone)]
pub struct HittableList {
    pub spheres: Vec<Sphere>,
}

impl View for HittableList {
    type V = Seq<SphereV>;

    open spec fn view(&self) -> Seq<SphereV> {
        self.spheres@.map_values(|s: Sphere| s@)
    }
}

impl HittableList {
    pub fn new() -> (r: HittableList)
        ensures
            r@ == Seq::<SphereV>::empty(),
    {
        let r = HittableList { spheres: Vec::new() };
        proof {
            assert(r@ =~= Seq::<SphereV>::empty());
        }
        r
    }

    pub fn add_sphere(&mut self, sphere: Sphere)
        ensures
            final(self)@ == old(self)@.push(sphere@),
    {
        self.spheres.push(sphere);
        proof {
            assert(self@ =~= old(self)@.push(sphere@));
        }
    }

    /// The nearest hit of `r` across all spheres strictly inside
    /// `ray_t`, if any.
    pub fn hit(&self, r: &Ray, ray_t: &Interval) -> (res: Option<HitRecord>)
        ensures
            opt_hit_view(res) == list_hit(self@, r@, ray_t@),
            res matches Some(rec) ==> iv_surrounds(ray_t@, rec@.t) && v3_dot(
                r@.dir,
                rec@.normal,
            ) <= 0,
    {
        let mut hit_record: Option<HitRecord> = None;
        let mut closest_so_far: Fx = ray_t.max;
        let n: usize = self.spheres.len();
        proof {
            assert(self@.subrange(0, n as int) =~= self@);
        }
        let mut k: usize = 0;
        while k < n
            invariant
                n == self.spheres.len(),
                k <= n,
                list_hit_from(
                    self@.subrange(k as int, n as int),
                    r@,
                    ray_t@.min,
                    closest_so_far@,
                    opt_hit_view(hit_record),
                ) == list_hit(self@, r@, ray_t@),
                match hit_record {
                    Some(rec) => iv_surrounds(ray_t@, rec@.t) && v3_dot(r@.dir, rec@.normal) <= 0
                        && closest_so_far@ == rec@.t,
                    None => closest_so_far@ == ray_t@.max,
                },
            decreases n - k,
        {
            let ghost pending = self@.subrange(k as int, n as int);
            let sphere = self.spheres[k];
            let hr = sphere.hit(r, &Interval::new(ray_t.min, closest_so_far));
            proof {
                assert(pending[0] == sphere@);
                assert(pending.subrange(1, pending.len() as int) =~= self@.subrange(
                    k as int + 1,
                    n as int,
                ));
            }
            match hr {
                Some(rec) => {
                    closest_so_far = rec.t;
                    hit_record = Some(rec);
                },
                None => {},
            }
            k = k + 1;
        }
        hit_record
    }
}

} // verus!
