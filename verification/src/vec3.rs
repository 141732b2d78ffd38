//! Three-component vectors over fixed-point scalars, serving as
//! points, directions and colors alike.

use crate::fixed::{
    fx_abs, fx_add, fx_div, fx_in_range, fx_min, fx_mul, fx_neg, fx_sqrt, fx_sub, sat, tdiv, Fx,
    FX_MAX, SCALE,
};
use crate::ppm::{is_rgb_line, rgb_line, rgb_line_string};
use crate::rng::sample_unit;
use vstd::prelude::*;

verus! {

/// The mathematical value of a vector: three numerators.
pub ghost struct V3 {
    pub x: int,
    pub y: int,
    pub z: int,
}

#[derive(Clone, Copy, Debug, PartialEq, Eq, Structural)]
pub struct Vec3 {
    pub x: Fx,
    pub y: Fx,
    pub z: Fx,
}

pub type Point3 = Vec3;

pub type Color = Vec3;

impl View for Vec3 {
    type V = V3;

    open spec fn view(&self) -> V3 {
        V3 { x: self.x@, y: self.y@, z: self.z@ }
    }
}

pub open spec fn v3_in_range(v: V3) -> bool {
    fx_in_range(v.x) && fx_in_range(v.y) && fx_in_range(v.z)
}

pub open spec fn v3_zero() -> V3 {
    V3 { x: 0, y: 0, z: 0 }
}

/// The all-ones vector: white, as a color.
pub open spec fn v3_one() -> V3 {
    V3 { x: SCALE as int, y: SCALE as int, z: SCALE as int }
}

pub open spec fn v3_add(a: V3, b: V3) -> V3 {
    V3 { x: fx_add(a.x, b.x), y: fx_add(a.y, b.y), z: fx_add(a.z, b.z) }
}

pub open spec fn v3_sub(a: V3, b: V3) -> V3 {
    V3 { x: fx_sub(a.x, b.x), y: fx_sub(a.y, b.y), z: fx_sub(a.z, b.z) }
}

pub open spec fn v3_neg(a: V3) -> V3 {
    V3 { x: fx_neg(a.x), y: fx_neg(a.y), z: fx_neg(a.z) }
}

/// Componentwise product, as colors attenuate.
pub open spec fn v3_cmul(a: V3, b: V3) -> V3 {
    V3 { x: fx_mul(a.x, b.x), y: fx_mul(a.y, b.y), z: fx_mul(a.z, b.z) }
}

pub open spec fn v3_scale(a: V3, s: int) -> V3 {
    V3 { x: fx_mul(a.x, s), y: fx_mul(a.y, s), z: fx_mul(a.z, s) }
}

pub open spec fn v3_div_s(a: V3, s: int) -> V3 {
    V3 { x: fx_div(a.x, s), y: fx_div(a.y, s), z: fx_div(a.z, s) }
}

pub open spec fn v3_dot(a: V3, b: V3) -> int {
    fx_add(fx_add(fx_mul(a.x, b.x), fx_mul(a.y, b.y)), fx_mul(a.z, b.z))
}

pub open spec fn v3_cross(a: V3, b: V3) -> V3 {
    V3 {
        x: fx_sub(fx_mul(a.y, b.z), fx_mul(a.z, b.y)),
        y: fx_sub(fx_mul(a.z, b.x), fx_mul(a.x, b.z)),
        z: fx_sub(fx_mul(a.x, b.y), fx_mul(a.y, b.x)),
    }
}

pub open spec fn v3_len_sq(a: V3) -> int {
    v3_dot(a, a)
}

pub open spec fn v3_len(a: V3) -> int {
    fx_sqrt(v3_len_sq(a))
}

/// `a` scaled to unit length; a vector whose quantized length is zero
/// maps to the zero vector, as division by zero yields zero.
pub open spec fn v3_unit(a: V3) -> V3 {
    v3_div_s(a, v3_len(a))
}

/// True when every component is a smaller magnitude than one quantum,
/// that is, when the vector is exactly zero on the scalar grid.
pub open spec fn v3_near_zero(a: V3) -> bool {
    a.x == 0 && a.y == 0 && a.z == 0
}

/// `v` mirrored about the plane with normal `n`.
pub open spec fn v3_reflect(v: V3, n: V3) -> V3 {
    let d = v3_dot(v, n);
    v3_sub(v, v3_scale(n, fx_add(d, d)))
}

/// Snell's law in vector form, with the cosine clamped to at most one.
pub open spec fn v3_refract(uv: V3, n: V3, eta_ratio: int) -> V3 {
    let cos = fx_min(v3_dot(v3_neg(uv), n), SCALE as int);
    let perp = v3_scale(v3_add(uv, v3_scale(n, cos)), eta_ratio);
    let par = v3_scale(n, fx_neg(fx_sqrt(fx_abs(fx_sub(SCALE as int, v3_len_sq(perp))))));
    v3_add(perp, par)
}

/// Negating one factor negates the rounded product exactly.
proof fn lemma_fx_mul_neg(a: int, b: int)
    requires
        fx_in_range(a),
        fx_in_range(b),
    ensures
        fx_mul(a, fx_neg(b)) == fx_neg(fx_mul(a, b)),
{
    assert(a * (-b) == -(a * b)) by (nonlinear_arith);
}

/// Negating the left factor negates the rounded product exactly.
proof fn lemma_fx_mul_neg_left(a: int, b: int)
    requires
        fx_in_range(a),
        fx_in_range(b),
    ensures
        fx_mul(fx_neg(a), b) == fx_neg(fx_mul(a, b)),
{
    assert((-a) * b == -(a * b)) by (nonlinear_arith);
}

/// Negating the right side negates the dot product exactly.
pub proof fn lemma_v3_dot_neg(a: V3, b: V3)
    requires
        v3_in_range(a),
        v3_in_range(b),
    ensures
        v3_dot(a, v3_neg(b)) == fx_neg(v3_dot(a, b)),
{
    lemma_fx_mul_neg(a.x, b.x);
    lemma_fx_mul_neg(a.y, b.y);
    lemma_fx_mul_neg(a.z, b.z);
}

/// Negating the left side negates the dot product exactly.
pub proof fn lemma_v3_dot_neg_left(a: V3, b: V3)
    requires
        v3_in_range(a),
        v3_in_range(b),
    ensures
        v3_dot(v3_neg(a), b) == fx_neg(v3_dot(a, b)),
{
    lemma_fx_mul_neg_left(a.x, b.x);
    lemma_fx_mul_neg_left(a.y, b.y);
    lemma_fx_mul_neg_left(a.z, b.z);
}

/// A uniform scaling factor below one shrinks a non-negative scalar.
proof fn lemma_unit_mul_bound(s: int, d: int)
    requires
        0 <= s < SCALE as int,
        0 <= d <= FX_MAX as int,
    ensures
        0 <= fx_mul(s, d) <= d,
{
    assert(0 <= s * d / (SCALE as int) <= d) by (nonlinear_arith)
        requires
            0 <= s < SCALE as int,
            0 <= d;
}

/// The clamp of a channel into `[0, 0.999]`, quantized.
pub open spec fn clamp_channel_spec(x: int) -> int {
    if x < 0 {
        0
    } else if x > 65470 {
        65470
    } else {
        x
    }
}

/// The emitted value of one channel: the accumulated channel averaged
/// by the sample count, clamped to `[0, 0.999]`, gamma-corrected by a
/// square root, scaled by 256 and truncated.
pub open spec fn channel_value(x: int, samples: int) -> int {
    let scale = fx_div(SCALE as int, sat(samples * (SCALE as int)));
    let g = fx_sqrt(clamp_channel_spec(fx_mul(x, scale)));
    tdiv(fx_mul(g, 16777216), SCALE as int)
}

/// Channel values always land in `[0, 255]`.
pub proof fn lemma_channel_bounds(x: int, samples: int)
    ensures
        0 <= channel_value(x, samples) <= 255,
{
    let scale = fx_div(SCALE as int, sat(samples * (SCALE as int)));
    let c = clamp_channel_spec(fx_mul(x, scale));
    let g = fx_sqrt(c);
    if c > 0 {
        assert((c * (SCALE as int)) < 65536 * 65536) by (nonlinear_arith)
            requires
                0 < c <= 65470;
        crate::fixed::lemma_isqrt_below((c * SCALE) as nat, 65536);
    }
    crate::fixed::lemma_fx_mul_whole(g, 256);
}

/// One output channel of a color, at the given per-sample scale.
fn channel_of(x: Fx, scale: Fx) -> (r: u32)
    ensures
        r as int == tdiv(fx_mul(fx_sqrt(clamp_channel_spec(fx_mul(x@, scale@))), 16777216), SCALE as int),
        r <= 255,
{
    let scaled = x.mul(scale);
    let clamped = if scaled.lt(Fx::zero()) {
        Fx::zero()
    } else if scaled.gt(Fx::from_raw(65470)) {
        Fx::from_raw(65470)
    } else {
        scaled
    };
    let g = clamped.sqrt();
    proof {
        let c = clamp_channel_spec(fx_mul(x@, scale@));
        assert(clamped@ == c);
        if c > 0 {
            assert((c * (SCALE as int)) < 65536 * 65536) by (nonlinear_arith)
                requires
                    0 < c <= 65470;
            crate::fixed::lemma_isqrt_below((c * SCALE) as nat, 65536);
        }
        assert(0 <= g@ < 65536);
        assert(g@ * 256 <= FX_MAX as int);
        crate::fixed::lemma_fx_mul_whole(g@, 256);
        assert(256 * (SCALE as int) == 16777216) by (nonlinear_arith);
        assert(sat(256 * (SCALE as int)) == 16777216);
        assert(fx_mul(g@, 16777216) == g@ * 256);
        assert(g@ * 256 <= 16776960);
        assert((g@ * 256) / (SCALE as int) <= 255) by (nonlinear_arith)
            requires
                0 <= g@ * 256 <= 16776960;
        assert(tdiv(g@ * 256, SCALE as int) == (g@ * 256) / (SCALE as int));
    }
    let v = g.mul(Fx::from_int(256)).trunc();
    v as u32
}

impl Vec3 {
    pub fn new(x: Fx, y: Fx, z: Fx) -> (r: Vec3)
        ensures
            r@ == (V3 { x: x@, y: y@, z: z@ }),
    {
        Vec3 { x, y, z }
    }

    pub fn zero() -> (r: Vec3)
        ensures
            r@ == v3_zero(),
    {
        Vec3 { x: Fx::zero(), y: Fx::zero(), z: Fx::zero() }
    }

    /// The all-ones vector: white, as a color.
    pub fn one() -> (r: Vec3)
        ensures
            r@ == v3_one(),
    {
        Vec3 { x: Fx::one(), y: Fx::one(), z: Fx::one() }
    }

    pub fn add(self, rhs: Vec3) -> (r: Vec3)
        ensures
            r@ == v3_add(self@, rhs@),
    {
        Vec3 { x: self.x.add(rhs.x), y: self.y.add(rhs.y), z: self.z.add(rhs.z) }
    }

    pub fn sub(self, rhs: Vec3) -> (r: Vec3)
        ensures
            r@ == v3_sub(self@, rhs@),
    {
        Vec3 { x: self.x.sub(rhs.x), y: self.y.sub(rhs.y), z: self.z.sub(rhs.z) }
    }

    pub fn neg(self) -> (r: Vec3)
        ensures
            r@ == v3_neg(self@),
    {
        Vec3 { x: self.x.neg(), y: self.y.neg(), z: self.z.neg() }
    }

    /// Componentwise product, as colors attenuate.
    pub fn mul(self, rhs: Vec3) -> (r: Vec3)
        ensures
            r@ == v3_cmul(self@, rhs@),
    {
        Vec3 { x: self.x.mul(rhs.x), y: self.y.mul(rhs.y), z: self.z.mul(rhs.z) }
    }

    pub fn scale(self, s: Fx) -> (r: Vec3)
        ensures
            r@ == v3_scale(self@, s@),
    {
        Vec3 { x: self.x.mul(s), y: self.y.mul(s), z: self.z.mul(s) }
    }

    pub fn div(self, s: Fx) -> (r: Vec3)
        ensures
            r@ == v3_div_s(self@, s@),
    {
        Vec3 { x: self.x.div(s), y: self.y.div(s), z: self.z.div(s) }
    }

    pub fn dot(self, rhs: Vec3) -> (r: Fx)
        ensures
            r@ == v3_dot(self@, rhs@),
    {
        self.x.mul(rhs.x).add(self.y.mul(rhs.y)).add(self.z.mul(rhs.z))
    }

    pub fn cross(self, rhs: Vec3) -> (r: Vec3)
        ensures
            r@ == v3_cross(self@, rhs@),
    {
        Vec3 {
            x: self.y.mul(rhs.z).sub(self.z.mul(rhs.y)),
            y: self.z.mul(rhs.x).sub(self.x.mul(rhs.z)),
            z: self.x.mul(rhs.y).sub(self.y.mul(rhs.x)),
        }
    }

    pub fn length_squared(self) -> (r: Fx)
        ensures
            r@ == v3_len_sq(self@),
    {
        self.dot(self)
    }

    pub fn length(self) -> (r: Fx)
        ensures
            r@ == v3_len(self@),
    {
        self.length_squared().sqrt()
    }

    pub fn unit_vector(self) -> (r: Vec3)
        ensures
            r@ == v3_unit(self@),
    {
        self.div(self.length())
    }

    pub fn near_zero(&self) -> (r: bool)
        ensures
            r == v3_near_zero(self@),
    {
        self.x.raw() == 0 && self.y.raw() == 0 && self.z.raw() == 0
    }

    /// The component selected by `index`: 0, 1 and 2 name x, y and z.
    pub fn index(&self, index: u8) -> (r: Fx)
        requires
            index < 3,
        ensures
            index == 0 ==> r == self.x,
            index == 1 ==> r == self.y,
            index == 2 ==> r == self.z,
    {
        if index == 0 {
            self.x
        } else if index == 1 {
            self.y
        } else {
            self.z
        }
    }

    pub fn reflect(&self, n: &Vec3) -> (r: Vec3)
        ensures
            r@ == v3_reflect(self@, n@),
    {
        let d = self.dot(*n);
        self.sub(n.scale(d.add(d)))
    }

    pub fn refract(&self, n: &Vec3, etai_over_etat: Fx) -> (r: Vec3)
        ensures
            r@ == v3_refract(self@, n@, etai_over_etat@),
    {
        let cos_theta = self.neg().dot(*n).min(Fx::one());
        let r_out_perp = self.add(n.scale(cos_theta)).scale(etai_over_etat);
        let r_out_parallel = n.scale(
            Fx::one().sub(r_out_perp.length_squared()).abs().sqrt().neg(),
        );
        r_out_perp.add(r_out_parallel)
    }

    /// The pixel line for this color: each channel averaged by the
    /// sample count, clamped, gamma-corrected and scaled to `[0, 255]`.
    pub fn to_color_string(&self, samples_per_pixel: u32) -> (s: String)
        ensures
            s@ == rgb_line(
                channel_value(self@.x, samples_per_pixel as int) as nat,
                channel_value(self@.y, samples_per_pixel as int) as nat,
                channel_value(self@.z, samples_per_pixel as int) as nat,
            ),
            is_rgb_line(s@),
    {
        let scale = Fx::one().div(Fx::from_int(samples_per_pixel as i64));
        let rv = channel_of(self.x, scale);
        let gv = channel_of(self.y, scale);
        let bv = channel_of(self.z, scale);
        let s = rgb_line_string(rv, gv, bv);
        proof {
            assert(s@ == rgb_line(rv as nat, gv as nat, bv as nat));
        }
        s
    }

    /// A vector whose components are uniform samples from `[0, 1)`.
    pub fn random(rng: &mut rand::rngs::StdRng) -> (r: Vec3)
        ensures
            0 <= r@.x < SCALE as int,
            0 <= r@.y < SCALE as int,
            0 <= r@.z < SCALE as int,
    {
        Vec3 { x: sample_unit(rng), y: sample_unit(rng), z: sample_unit(rng) }
    }

    /// A vector whose components are uniform samples from `[lo, hi)`,
    /// up to rounding toward zero at the grid.
    pub fn random_range(lo: Fx, hi: Fx, rng: &mut rand::rngs::StdRng) -> (r: Vec3)
        requires
            lo@ <= hi@,
        ensures
            lo@ <= r@.x <= hi@,
            lo@ <= r@.y <= hi@,
            lo@ <= r@.z <= hi@,
    {
        proof {
            use_type_invariant(lo);
            use_type_invariant(hi);
        }
        let d = hi.sub(lo);
        let sx = sample_unit(rng);
        let sy = sample_unit(rng);
        let sz = sample_unit(rng);
        proof {
            lemma_unit_mul_bound(sx@, d@);
            lemma_unit_mul_bound(sy@, d@);
            lemma_unit_mul_bound(sz@, d@);
        }
        Vec3 { x: sx.mul(d).add(lo), y: sy.mul(d).add(lo), z: sz.mul(d).add(lo) }
    }

    /// A point inside the unit ball, found by rejection sampling over
    /// the cube, with a defensive retry cap and an interior fallback.
    pub fn random_in_unit_sphere(rng: &mut rand::rngs::StdRng) -> (r: Vec3)
        ensures
            v3_len_sq(r@) < SCALE as int,
    {
        let minus_one = Fx::from_int(-1);
        let one = Fx::one();
        let mut tries: u32 = 0;
        while tries < 64
            invariant
                minus_one@ == -(SCALE as int),
                one@ == SCALE as int,
            decreases 64 - tries,
        {
            let p = Vec3::random_range(minus_one, one, rng);
            if p.length_squared().lt(Fx::one()) {
                return p;
            }
            tries = tries + 1;
        }
        let center = Vec3 { x: Fx::from_raw(16384), y: Fx::from_raw(16384), z: Fx::from_raw(16384) };
        proof {
            assert(center@ == (V3 { x: 16384, y: 16384, z: 16384 }));
            assert(16384 * 16384 == 268435456) by (nonlinear_arith);
            assert(268435456int / 65536int == 4096);
            assert(tdiv(268435456, 65536) == 4096);
            assert(fx_mul(16384, 16384) == 4096);
            assert(v3_len_sq(V3 { x: 16384, y: 16384, z: 16384 }) == 12288);
        }
        center
    }

    /// A sampled interior point scaled to the unit sphere; a sample
    /// whose quantized length is zero maps to the zero vector.
    pub fn random_unit_vector(rng: &mut rand::rngs::StdRng) -> (r: Vec3)
        ensures
            exists|p: V3| #[trigger] v3_unit(p) == r@ && v3_len_sq(p) < SCALE as int,
    {
        let p = Vec3::random_in_unit_sphere(rng);
        let u = p.unit_vector();
        proof {
            assert(v3_unit(p@) == u@ && v3_len_sq(p@) < SCALE as int);
        }
        u
    }

    /// A sampled direction on the side of the surface that `normal`
    /// points to.
    pub fn random_on_hemisphere(normal: &Vec3, rng: &mut rand::rngs::StdRng) -> (r: Vec3)
        ensures
            v3_dot(r@, normal@) >= 0,
    {
        let on_unit_sphere = Vec3::random_in_unit_sphere(rng);
        if on_unit_sphere.dot(*normal).gt(Fx::zero()) {
            on_unit_sphere
        } else {
            proof {
                use_type_invariant(normal.x);
                use_type_invariant(normal.y);
                use_type_invariant(normal.z);
                use_type_invariant(on_unit_sphere.x);
                use_type_invariant(on_unit_sphere.y);
                use_type_invariant(on_unit_sphere.z);
                lemma_v3_dot_neg_left(on_unit_sphere@, normal@);
            }
            on_unit_sphere.neg()
        }
    }

    /// A point inside the unit disk of the xy-plane, found by
    /// rejection sampling over the square, with a defensive retry cap
    /// and an interior fallback.
    pub fn random_in_unit_disk(rng: &mut rand::rngs::StdRng) -> (r: Vec3)
        ensures
            r@.z == 0,
            v3_len_sq(r@) < SCALE as int,
    {
        let minus_one = Fx::from_int(-1);
        let one = Fx::one();
        let mut tries: u32 = 0;
        while tries < 64
            invariant
                minus_one@ == -(SCALE as int),
                one@ == SCALE as int,
            decreases 64 - tries,
        {
            let d = one.sub(minus_one);
            let sx = sample_unit(rng);
            let sy = sample_unit(rng);
            proof {
                lemma_unit_mul_bound(sx@, d@);
                lemma_unit_mul_bound(sy@, d@);
            }
            let p = Vec3 {
                x: sx.mul(d).add(minus_one),
                y: sy.mul(d).add(minus_one),
                z: Fx::zero(),
            };
            if p.length_squared().lt(Fx::one()) {
                return p;
            }
            tries = tries + 1;
        }
        let center = Vec3 { x: Fx::from_raw(16384), y: Fx::from_raw(16384), z: Fx::zero() };
        proof {
            assert(center@ == (V3 { x: 16384, y: 16384, z: 0 }));
            assert(16384 * 16384 == 268435456) by (nonlinear_arith);
            assert(268435456int / 65536int == 4096);
            assert(tdiv(268435456, 65536) == 4096);
            assert(fx_mul(16384, 16384) == 4096);
            assert(fx_mul(0, 0) == 0);
            assert(v3_len_sq(V3 { x: 16384, y: 16384, z: 0 }) == 8192);
        }
        center
    }
}

} // verus!
