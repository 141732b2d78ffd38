//! Saturating fixed-point scalars.
//!
//! A scalar is stored as an integer numerator `n` and denotes the
//! rational `n / SCALE`.  Every operation clamps its numerator into
//! `[-FX_MAX, FX_MAX]` instead of wrapping, and division rounds toward
//! zero, so negating an operand always negates a product or quotient
//! exactly.  The spec functions below give each operation its meaning
//! over unbounded integers; the executable methods are proved to agree
//! with them.

use vstd::prelude::*;

verus! {

/// Scalars are stored as integer multiples of `1 / SCALE`.
pub const SCALE: i64 = 65536;

/// Numerators saturate at this magnitude instead of wrapping.
pub const FX_MAX: i64 = 0x4000_0000_0000_0000;

/// Clamp an unbounded numerator into the representable range.
pub open spec fn sat(x: int) -> int {
    if x > FX_MAX as int {
        FX_MAX as int
    } else if x < -(FX_MAX as int) {
        -(FX_MAX as int)
    } else {
        x
    }
}

/// Magnitude of an integer.
pub open spec fn mag(x: int) -> int {
    if x < 0 {
        -x
    } else {
        x
    }
}

/// Division rounding toward zero, with a zero divisor mapped to zero.
pub open spec fn tdiv(a: int, b: int) -> int {
    if b == 0 {
        0
    } else if (a < 0) == (b < 0) {
        mag(a) / mag(b)
    } else {
        -(mag(a) / mag(b))
    }
}

pub open spec fn fx_in_range(a: int) -> bool {
    -(FX_MAX as int) <= a <= FX_MAX as int
}

/// Numerator of the fixed-point sum.
pub open spec fn fx_add(a: int, b: int) -> int {
    sat(a + b)
}

/// Numerator of the fixed-point difference.
pub open spec fn fx_sub(a: int, b: int) -> int {
    sat(a - b)
}

/// Numerator of the fixed-point negation.
pub open spec fn fx_neg(a: int) -> int {
    sat(-a)
}

/// Numerator of the fixed-point product: the exact product of the two
/// rationals, rounded toward zero to the scalar grid, then clamped.
pub open spec fn fx_mul(a: int, b: int) -> int {
    sat(tdiv(a * b, SCALE as int))
}

/// Numerator of the fixed-point quotient, rounded toward zero and
/// clamped; a zero divisor yields zero.
pub open spec fn fx_div(a: int, b: int) -> int {
    if b == 0 {
        0
    } else {
        sat(tdiv(a * (SCALE as int), b))
    }
}

pub open spec fn fx_min(a: int, b: int) -> int {
    if a <= b {
        a
    } else {
        b
    }
}

pub open spec fn fx_abs(a: int) -> int {
    sat(mag(a))
}

/// `r` is the integer square root of `n`.
pub open spec fn is_isqrt(n: int, r: int) -> bool {
    0 <= r && r * r <= n && n < (r + 1) * (r + 1)
}

/// Integer square root, defined by counting up.
pub open spec fn isqrt(n: nat) -> nat
    decreases n,
{
    if n == 0 {
        0
    } else {
        let p = isqrt((n - 1) as nat);
        if (p + 1) * (p + 1) <= n {
            p + 1
        } else {
            p
        }
    }
}

/// Numerator of the fixed-point square root: `sqrt(n / SCALE)` equals
/// `sqrt(n * SCALE) / SCALE`, so the numerator is the integer square
/// root of `n * SCALE`.  Arguments at or below zero yield zero.
pub open spec fn fx_sqrt(a: int) -> int {
    if a <= 0 {
        0
    } else {
        isqrt((a * SCALE) as nat) as int
    }
}

/// Numerator of the scalar closest to pi.
pub const PI_FX: i64 = 205887;

/// A truncated alternating series for the sine, accurate on
/// `[0, pi / 2]`.
pub open spec fn fx_sin_poly(x: int) -> int {
    let x2 = fx_mul(x, x);
    let x3 = fx_mul(x2, x);
    let x5 = fx_mul(x3, x2);
    let x7 = fx_mul(x5, x2);
    fx_sub(fx_add(fx_sub(x, fx_div(x3, 6 * SCALE)), fx_div(x5, 120 * SCALE)), fx_div(x7, 5040 * SCALE))
}

/// A truncated alternating series for the cosine, accurate on
/// `[0, pi / 2]`.
pub open spec fn fx_cos_poly(x: int) -> int {
    let x2 = fx_mul(x, x);
    let x4 = fx_mul(x2, x2);
    let x6 = fx_mul(x4, x2);
    fx_sub(
        fx_add(fx_sub(SCALE as int, fx_div(x2, 2 * SCALE)), fx_div(x4, 24 * SCALE)),
        fx_div(x6, 720 * SCALE),
    )
}

/// The tangent as the ratio of the two series.
pub open spec fn fx_tan_poly(x: int) -> int {
    fx_div(fx_sin_poly(x), fx_cos_poly(x))
}

/// `isqrt` satisfies the square-root bracketing.
pub proof fn lemma_isqrt_is_sqrt(n: nat)
    ensures
        is_isqrt(n as int, isqrt(n) as int),
    decreases n,
{
    if n == 0 {
    } else {
        lemma_isqrt_is_sqrt((n - 1) as nat);
        let p = isqrt((n - 1) as nat) as int;
        if (p + 1) * (p + 1) <= n {
            assert((p + 1 + 1) * (p + 1 + 1) > n) by (nonlinear_arith)
                requires
                    0 <= p,
                    ((n - 1) as int) < (p + 1) * (p + 1),
                    (p + 1) * (p + 1) <= n as int;
        }
    }
}

/// The square-root bracketing pins the root down uniquely.
pub proof fn lemma_isqrt_unique(n: nat, r: int)
    requires
        is_isqrt(n as int, r),
    ensures
        r == isqrt(n),
{
    lemma_isqrt_is_sqrt(n);
    let s = isqrt(n) as int;
    assert(r == s) by (nonlinear_arith)
        requires
            0 <= r && r * r <= n as int && (n as int) < (r + 1) * (r + 1),
            0 <= s && s * s <= n as int && (n as int) < (s + 1) * (s + 1);
}

/// A square root stays below any bound whose square exceeds the input.
pub proof fn lemma_isqrt_below(n: nat, bound: int)
    requires
        0 <= bound,
        n < bound * bound,
    ensures
        (isqrt(n) as int) < bound,
{
    lemma_isqrt_is_sqrt(n);
    let s = isqrt(n) as int;
    assert(s < bound) by (nonlinear_arith)
        requires
            0 <= s && s * s <= n as int,
            0 <= bound,
            (n as int) < bound * bound;
}

/// Multiplying by a whole scalar is exact while the product stays in
/// range.
pub proof fn lemma_fx_mul_whole(a: int, k: int)
    requires
        0 <= a,
        0 <= k,
        a * k <= FX_MAX as int,
    ensures
        fx_mul(a, k * (SCALE as int)) == a * k,
{
    assert(a * (k * (SCALE as int)) == (a * k) * (SCALE as int)) by (nonlinear_arith);
    assert(((a * k) * (SCALE as int)) / (SCALE as int) == a * k) by (nonlinear_arith)
        requires
            0 <= a * k;
}

/// A saturating fixed-point scalar.
#[derive(Clone, Copy, Debug, PartialEq, Eq, Structural)]
pub struct Fx {
    n: i64,
}

impl View for Fx {
    type V = int;

    closed spec fn view(&self) -> int {
        self.n as int
    }
}

/// Clamp a wide intermediate numerator into a scalar.
fn clamp_wide(p: i128) -> (r: Fx)
    ensures
        r@ == sat(p as int),
{
    if p > FX_MAX as i128 {
        Fx { n: FX_MAX }
    } else if p < -(FX_MAX as i128) {
        Fx { n: -FX_MAX }
    } else {
        Fx { n: p as i64 }
    }
}

impl Fx {
    /// Stored numerators always lie within the saturation bound.
    #[verifier::type_invariant]
    pub open spec fn inv(self) -> bool {
        fx_in_range(self@)
    }

    /// The scalar whose numerator is `n`, clamped into range.
    pub fn from_raw(n: i64) -> (r: Fx)
        ensures
            r@ == sat(n as int),
    {
        if n > FX_MAX {
            Fx { n: FX_MAX }
        } else if n < -FX_MAX {
            Fx { n: -FX_MAX }
        } else {
            Fx { n }
        }
    }

    /// The scalar denoting the integer `x`, clamped into range.
    pub fn from_int(x: i64) -> (r: Fx)
        ensures
            r@ == sat(x * SCALE),
    {
        proof {
            assert((x as int) * (SCALE as int) <= 0x8000_0000_0000_0000i128 * 0x1_0000
                && (x as int) * (SCALE as int) >= -(0x8000_0000_0000_0000i128 * 0x1_0000))
                by (nonlinear_arith)
                requires
                    -0x8000_0000_0000_0000 <= (x as int) && (x as int) < 0x8000_0000_0000_0000;
        }
        let p: i128 = (x as i128) * (SCALE as i128);
        clamp_wide(p)
    }

    /// The stored numerator.
    pub fn raw(self) -> (r: i64)
        ensures
            r as int == self@,
    {
        self.n
    }

    pub fn zero() -> (r: Fx)
        ensures
            r@ == 0,
    {
        Fx { n: 0 }
    }

    pub fn one() -> (r: Fx)
        ensures
            r@ == SCALE as int,
    {
        Fx { n: SCALE }
    }

    pub fn add(self, o: Fx) -> (r: Fx)
        ensures
            r@ == fx_add(self@, o@),
    {
        let p: i128 = self.n as i128 + o.n as i128;
        clamp_wide(p)
    }

    pub fn sub(self, o: Fx) -> (r: Fx)
        ensures
            r@ == fx_sub(self@, o@),
    {
        let p: i128 = self.n as i128 - o.n as i128;
        clamp_wide(p)
    }

    pub fn neg(self) -> (r: Fx)
        ensures
            r@ == fx_neg(self@),
    {
        proof {
            use_type_invariant(self);
        }
        Fx { n: -self.n }
    }

    pub fn abs(self) -> (r: Fx)
        ensures
            r@ == fx_abs(self@),
    {
        proof {
            use_type_invariant(self);
        }
        if self.n < 0 {
            Fx { n: -self.n }
        } else {
            Fx { n: self.n }
        }
    }

    pub fn lt(self, o: Fx) -> (r: bool)
        ensures
            r == (self@ < o@),
    {
        self.n < o.n
    }

    pub fn le(self, o: Fx) -> (r: bool)
        ensures
            r == (self@ <= o@),
    {
        self.n <= o.n
    }

    pub fn gt(self, o: Fx) -> (r: bool)
        ensures
            r == (self@ > o@),
    {
        self.n > o.n
    }

    pub fn ge(self, o: Fx) -> (r: bool)
        ensures
            r == (self@ >= o@),
    {
        self.n >= o.n
    }

    pub fn min(self, o: Fx) -> (r: Fx)
        ensures
            r@ == fx_min(self@, o@),
    {
        if self.n <= o.n {
            self
        } else {
            o
        }
    }

    pub fn mul(self, o: Fx) -> (r: Fx)
        ensures
            r@ == fx_mul(self@, o@),
    {
        proof {
            use_type_invariant(self);
            use_type_invariant(o);
            assert((self.n as int) * (o.n as int) <= (FX_MAX as int) * (FX_MAX as int)
                && (self.n as int) * (o.n as int) >= -((FX_MAX as int) * (FX_MAX as int)))
                by (nonlinear_arith)
                requires
                    -(FX_MAX as int) <= self.n as int <= FX_MAX as int,
                    -(FX_MAX as int) <= o.n as int <= FX_MAX as int;
        }
        let p: i128 = (self.n as i128) * (o.n as i128);
        let neg: bool = p < 0;
        let m: u128 = if neg {
            (-p) as u128
        } else {
            p as u128
        };
        let q: u128 = m / (SCALE as u128);
        let qc: i64 = if q > FX_MAX as u128 {
            FX_MAX
        } else {
            q as i64
        };
        if neg {
            Fx { n: -qc }
        } else {
            Fx { n: qc }
        }
    }

    pub fn div(self, o: Fx) -> (r: Fx)
        ensures
            r@ == fx_div(self@, o@),
    {
        proof {
            use_type_invariant(self);
            use_type_invariant(o);
        }
        if o.n == 0 {
            return Fx { n: 0 };
        }
        proof {
            assert((self.n as int) * (SCALE as int) <= 0x8000_0000_0000_0000i128 * 0x1_0000
                && (self.n as int) * (SCALE as int) >= -(0x8000_0000_0000_0000i128 * 0x1_0000))
                by (nonlinear_arith)
                requires
                    -0x8000_0000_0000_0000 <= (self.n as int)
                        && (self.n as int) < 0x8000_0000_0000_0000;
        }
        let p: i128 = (self.n as i128) * (SCALE as i128);
        let neg: bool = (p < 0) != (o.n < 0);
        let ma: u128 = if p < 0 {
            (-p) as u128
        } else {
            p as u128
        };
        let mb: u128 = if o.n < 0 {
            (-(o.n as i128)) as u128
        } else {
            o.n as u128
        };
        let q: u128 = ma / mb;
        let qc: i64 = if q > FX_MAX as u128 {
            FX_MAX
        } else {
            q as i64
        };
        if neg {
            Fx { n: -qc }
        } else {
            Fx { n: qc }
        }
    }

    /// The fixed-point square root of a non-negative scalar; arguments
    /// at or below zero yield zero.
    pub fn sqrt(self) -> (r: Fx)
        ensures
            r@ == fx_sqrt(self@),
    {
        proof {
            use_type_invariant(self);
        }
        if self.n <= 0 {
            return Fx { n: 0 };
        }
        let x: u128 = (self.n as u128) * (SCALE as u128);
        let mut lo: u64 = 0;
        let mut hi: u64 = 0x100_0000_0000;
        proof {
            assert((0x100_0000_0000 as int) * (0x100_0000_0000 as int) > x as int);
        }
        while lo + 1 < hi
            invariant
                (lo as int) * (lo as int) <= x as int,
                (x as int) < (hi as int) * (hi as int),
                lo < hi <= 0x100_0000_0000u64,
            decreases hi - lo,
        {
            let mid: u64 = lo + (hi - lo) / 2;
            proof {
                assert((mid as int) * (mid as int) <= 0x1_0000_0000_0000_0000_0000u128 as int)
                    by (nonlinear_arith)
                    requires
                        0 <= mid as int <= 0x100_0000_0000 as int;
            }
            let sq: u128 = (mid as u128) * (mid as u128);
            if sq <= x {
                lo = mid;
            } else {
                hi = mid;
            }
        }
        proof {
            assert(is_isqrt(x as int, lo as int));
            lemma_isqrt_unique(x as nat, lo as int);
        }
        Fx { n: lo as i64 }
    }

    /// The truncated sine series; meant for arguments in `[0, pi / 2]`.
    pub fn sin_poly(self) -> (r: Fx)
        ensures
            r@ == fx_sin_poly(self@),
    {
        let x2 = self.mul(self);
        let x3 = x2.mul(self);
        let x5 = x3.mul(x2);
        let x7 = x5.mul(x2);
        self.sub(x3.div(Fx::from_int(6))).add(x5.div(Fx::from_int(120))).sub(
            x7.div(Fx::from_int(5040)),
        )
    }

    /// The truncated cosine series; meant for arguments in `[0, pi / 2]`.
    pub fn cos_poly(self) -> (r: Fx)
        ensures
            r@ == fx_cos_poly(self@),
    {
        let x2 = self.mul(self);
        let x4 = x2.mul(x2);
        let x6 = x4.mul(x2);
        Fx::one().sub(x2.div(Fx::from_int(2))).add(x4.div(Fx::from_int(24))).sub(
            x6.div(Fx::from_int(720)),
        )
    }

    /// The tangent as the ratio of the two series.
    pub fn tan_poly(self) -> (r: Fx)
        ensures
            r@ == fx_tan_poly(self@),
    {
        self.sin_poly().div(self.cos_poly())
    }

    /// The integer part, rounded toward zero.
    pub fn trunc(self) -> (r: i64)
        ensures
            r as int == tdiv(self@, SCALE as int),
    {
        proof {
            use_type_invariant(self);
        }
        if self.n >= 0 {
            ((self.n as u64) / (SCALE as u64)) as i64
        } else {
            -((((-self.n) as u64) / (SCALE as u64)) as i64)
        }
    }
}

} // verus!
