//! Saturating fixed-point scalar arithmetic.
//!
//! A scalar is an `i64` counting ten-millionths, so `SCALE` represents 1.0.
//! Every operation is total: sums and differences saturate at the `i64`
//! range, division by zero yields zero (a degenerate sentinel, mirroring how
//! normalizing a zero-length vector yields the zero vector), and square
//! roots are rounded down.  Each executable operation is pinned exactly to
//! its mathematical specification, which is what makes the simulation loop
//! above it deterministic by construction.

use vstd::arithmetic::div_mod::{lemma_div_is_ordered, lemma_div_pos_is_pos};
use vstd::arithmetic::mul::lemma_mul_upper_bound;
use vstd::prelude::*;

verus! {

/// Number of fixed-point units in 1.0: scalars are counts of ten-millionths.
pub const SCALE: i64 = 10_000_000;

/// Clamp a mathematical integer into the `i64` range.
pub open spec fn sat(x: int) -> i64 {
    if x > i64::MAX {
        i64::MAX
    } else if x < i64::MIN {
        i64::MIN
    } else {
        x as i64
    }
}

/// Division truncating toward zero (the convention of Rust's `/` on
/// machine integers), as opposed to the Euclidean `/` of spec arithmetic.
pub open spec fn div_trunc(n: int, d: int) -> int
    recommends
        d != 0,
{
    let q = vstd::math::abs(n) / vstd::math::abs(d);
    if (n < 0) != (d < 0) {
        -q
    } else {
        q as int
    }
}

/// The saturating fixed-point sum.
pub open spec fn spec_add(a: i64, b: i64) -> i64 {
    sat(a + b)
}

/// The saturating fixed-point difference.
pub open spec fn spec_sub(a: i64, b: i64) -> i64 {
    sat(a - b)
}

/// The saturating fixed-point product: `a * b` rescaled by `SCALE`,
/// truncated toward zero.
pub open spec fn spec_mul(a: i64, b: i64) -> i64 {
    sat(div_trunc(a as int * b as int, SCALE as int))
}

/// The saturating fixed-point quotient: `a / b` rescaled by `SCALE`,
/// truncated toward zero; division by zero yields the zero sentinel.
pub open spec fn spec_div(a: i64, b: i64) -> i64 {
    if b == 0 {
        0
    } else {
        sat(div_trunc(a as int * SCALE as int, b as int))
    }
}

/// The integer square root, rounded down.
pub open spec fn sqrt_floor(n: nat) -> nat
    decreases n,
{
    if n == 0 {
        0
    } else {
        let r = sqrt_floor((n - 1) as nat);
        if (r + 1) * (r + 1) <= n {
            r + 1
        } else {
            r
        }
    }
}

/// `sqrt_floor(n)` is the unique `r` with `r * r <= n < (r + 1) * (r + 1)`.
pub proof fn lemma_sqrt_floor_bounds(n: nat)
    ensures
        sqrt_floor(n) * sqrt_floor(n) <= n,
        n < (sqrt_floor(n) + 1) * (sqrt_floor(n) + 1),
    decreases n,
{
    let s = sqrt_floor(n);
    if n > 0 {
        lemma_sqrt_floor_bounds((n - 1) as nat);
        let r = sqrt_floor((n - 1) as nat);
        if (r + 1) * (r + 1) <= n {
            assert(s == r + 1);
            assert(s * s <= n && n < (s + 1) * (s + 1)) by (nonlinear_arith)
                requires
                    s == r + 1,
                    (r + 1) * (r + 1) <= n,
                    n - 1 < (r + 1) * (r + 1),
            ;
        } else {
            assert(s == r);
            assert(s * s <= n && n < (s + 1) * (s + 1)) by (nonlinear_arith)
                requires
                    s == r,
                    r * r <= n - 1,
                    n < (r + 1) * (r + 1),
            ;
        }
    } else {
        assert(s == 0);
        assert(s * s <= n && n < (s + 1) * (s + 1)) by (nonlinear_arith)
            requires
                s == 0,
                n == 0,
        ;
    }
}

/// Any `r` in the square-root window equals `sqrt_floor(n)`.
pub proof fn lemma_sqrt_floor_unique(n: nat, r: nat)
    requires
        r * r <= n,
        n < (r + 1) * (r + 1),
    ensures
        r == sqrt_floor(n),
{
    let s = sqrt_floor(n);
    lemma_sqrt_floor_bounds(n);
    if r < s {
        assert((r + 1) * (r + 1) <= s * s) by (nonlinear_arith)
            requires
                r + 1 <= s,
        ;
    }
    if s < r {
        assert((s + 1) * (s + 1) <= r * r) by (nonlinear_arith)
            requires
                s + 1 <= r,
        ;
    }
}

/// Saturating addition.
pub fn sat_add(a: i64, b: i64) -> (r: i64)
    ensures
        r == spec_add(a, b),
{
    let s: i128 = a as i128 + b as i128;
    if s > i64::MAX as i128 {
        i64::MAX
    } else if s < i64::MIN as i128 {
        i64::MIN
    } else {
        s as i64
    }
}

/// Saturating subtraction.
pub fn sat_sub(a: i64, b: i64) -> (r: i64)
    ensures
        r == spec_sub(a, b),
{
    let s: i128 = a as i128 - b as i128;
    if s > i64::MAX as i128 {
        i64::MAX
    } else if s < i64::MIN as i128 {
        i64::MIN
    } else {
        s as i64
    }
}

/// The magnitude of an `i64`, widened so that `i64::MIN` is representable.
fn abs_u128(a: i64) -> (r: u128)
    ensures
        r == vstd::math::abs(a as int),
{
    if a >= 0 {
        a as u128
    } else {
        (-(a as i128)) as u128
    }
}

/// Reassemble a sign and a magnitude into a saturated `i64`.
fn sat_of_sign_mag(neg: bool, q: u128) -> (r: i64)
    ensures
        r == sat(if neg { -(q as int) } else { q as int }),
{
    if neg {
        if q >= 9_223_372_036_854_775_808u128 {
            i64::MIN
        } else {
            -(q as i64)
        }
    } else {
        if q > i64::MAX as u128 {
            i64::MAX
        } else {
            q as i64
        }
    }
}

/// The magnitude of a product is the product of the magnitudes.
pub proof fn lemma_abs_mul(a: int, b: int)
    ensures
        vstd::math::abs(a * b) == vstd::math::abs(a) * vstd::math::abs(b),
{
    assert(vstd::math::abs(a * b) == vstd::math::abs(a) * vstd::math::abs(b)) by (nonlinear_arith);
}

/// Fixed-point multiplication.
pub fn fix_mul(a: i64, b: i64) -> (r: i64)
    ensures
        r == spec_mul(a, b),
{
    let neg = (a < 0) != (b < 0);
    let ma = abs_u128(a);
    let mb = abs_u128(b);
    proof {
        lemma_mul_upper_bound(ma as int, 0x8000_0000_0000_0000, mb as int, 0x8000_0000_0000_0000);
        lemma_abs_mul(a as int, b as int);
    }
    let p: u128 = ma * mb;
    let q: u128 = p / (SCALE as u128);
    proof {
        assert((a as int * b as int != 0) ==> (neg == ((a as int) * (b as int) < 0)))
            by (nonlinear_arith)
            requires
                neg == ((a < 0) != (b < 0)),
        ;
        lemma_sign_mag_div(a as int * b as int, SCALE as int, neg, q as int);
    }
    sat_of_sign_mag(neg, q)
}

/// Fixed-point division; the divisor-zero sentinel is zero.
pub fn fix_div(a: i64, b: i64) -> (r: i64)
    ensures
        r == spec_div(a, b),
{
    if b == 0 {
        return 0;
    }
    let neg = (a < 0) != (b < 0);
    let ma = abs_u128(a);
    let mb = abs_u128(b);
    proof {
        lemma_mul_upper_bound(ma as int, 0x8000_0000_0000_0000, SCALE as int, SCALE as int);
        lemma_abs_mul(a as int, SCALE as int);
    }
    let n: u128 = ma * (SCALE as u128);
    let q: u128 = n / mb;
    proof {
        lemma_sign_mag_div(a as int * SCALE as int, b as int, neg, q as int);
    }
    sat_of_sign_mag(neg, q)
}

/// Relate a magnitude-and-sign quotient to truncating division: whenever the
/// claimed sign agrees with the true sign of `n / d` (which is arbitrary for
/// a zero dividend), the signed quotient is the truncating quotient.
proof fn lemma_sign_mag_div(n: int, d: int, neg: bool, q: int)
    requires
        d != 0,
        q == vstd::math::abs(n) / vstd::math::abs(d),
        n != 0 ==> (neg <==> ((n < 0) != (d < 0))),
    ensures
        div_trunc(n, d) == if neg {
            -q
        } else {
            q
        },
{
    if n == 0 {
        assert(vstd::math::abs(n) / vstd::math::abs(d) == 0) by {
            lemma_div_pos_is_pos(0, vstd::math::abs(d) as int);
            lemma_div_is_ordered(0, 0, vstd::math::abs(d) as int);
        }
    }
}

/// The saturating absolute value (the magnitude of `i64::MIN` saturates to
/// `i64::MAX`).
pub open spec fn spec_abs_sat(a: i64) -> i64 {
    if a >= 0 {
        a
    } else {
        sat(-(a as int))
    }
}

/// Saturating absolute value.
pub fn abs_sat(a: i64) -> (r: i64)
    ensures
        r == spec_abs_sat(a),
{
    if a >= 0 {
        a
    } else if a == i64::MIN {
        i64::MAX
    } else {
        -a
    }
}

/// The square of an `i64`, exactly, as a `u128`.
pub(crate) fn sq_u128(a: i64) -> (r: u128)
    ensures
        r == (a as int) * (a as int),
        r <= 0x4000_0000_0000_0000_0000_0000_0000_0000u128,
{
    let m = abs_u128(a);
    proof {
        lemma_abs_mul(a as int, a as int);
        lemma_mul_upper_bound(m as int, 0x8000_0000_0000_0000, m as int, 0x8000_0000_0000_0000);
        assert(a as int * a as int >= 0) by (nonlinear_arith);
    }
    m * m
}

/// The integer square root of a `u128`, rounded down.
pub fn isqrt_u128(n: u128) -> (r: u64)
    ensures
        r == sqrt_floor(n as nat),
        r * r <= n,
        n < (r + 1) * (r + 1),
{
    if n >= 0xFFFF_FFFF_FFFF_FFFFu128 * 0xFFFF_FFFF_FFFF_FFFFu128 {
        proof {
            assert((u64::MAX as int + 1) * (u64::MAX as int + 1)
                == 340282366920938463463374607431768211456int) by (nonlinear_arith);
            lemma_sqrt_floor_unique(n as nat, u64::MAX as nat);
        }
        return u64::MAX;
    }
    let mut lo: u64 = 0;
    let mut hi: u64 = 0xFFFF_FFFF_FFFF_FFFEu64;
    while lo < hi
        invariant
            lo <= hi,
            hi <= 0xFFFF_FFFF_FFFF_FFFEu64,
            (lo as int) * (lo as int) <= n as int,
            (n as int) < ((hi as int) + 1) * ((hi as int) + 1),
        decreases hi - lo,
    {
        let mid: u64 = lo + (hi - lo + 1) / 2;
        proof {
            lemma_mul_upper_bound(mid as int, u64::MAX as int, mid as int, u64::MAX as int);
        }
        let sq: u128 = (mid as u128) * (mid as u128);
        if sq <= n {
            lo = mid;
        } else {
            hi = mid - 1;
        }
    }
    proof {
        lemma_sqrt_floor_unique(n as nat, lo as nat);
    }
    lo
}

} // verus!
