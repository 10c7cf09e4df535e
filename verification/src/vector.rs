//! 3D vector algebra over fixed-point scalars.
//!
//! `Vec3` is a plain value type: three fixed-point scalars.  Arithmetic is
//! componentwise saturating fixed-point arithmetic; the magnitude is the
//! rounded-down square root of the exact (unscaled) sum of squares; and
//! normalizing a zero-length vector yields the zero vector, a degenerate
//! sentinel rather than a failure.

use crate::fixed::{
    fix_div, fix_mul, isqrt_u128, sat, sat_add, sat_sub, spec_add, spec_div, spec_mul, spec_sub,
    sq_u128, sqrt_floor,
};
use vstd::prelude::*;

verus! {

/// A 3D vector of fixed-point scalars.
#[derive(Clone, Copy, Debug, PartialEq, Eq, Structural)]
pub struct Vec3 {
    pub x: i64,
    pub y: i64,
    pub z: i64,
}

/// Componentwise saturating sum.
pub open spec fn spec_vadd(a: Vec3, b: Vec3) -> Vec3 {
    Vec3 { x: spec_add(a.x, b.x), y: spec_add(a.y, b.y), z: spec_add(a.z, b.z) }
}

/// Componentwise saturating difference.
pub open spec fn spec_vsub(a: Vec3, b: Vec3) -> Vec3 {
    Vec3 { x: spec_sub(a.x, b.x), y: spec_sub(a.y, b.y), z: spec_sub(a.z, b.z) }
}

/// Componentwise fixed-point scaling.
pub open spec fn spec_vscale(v: Vec3, s: i64) -> Vec3 {
    Vec3 { x: spec_mul(v.x, s), y: spec_mul(v.y, s), z: spec_mul(v.z, s) }
}

/// Componentwise saturating negation.
pub open spec fn spec_vneg(v: Vec3) -> Vec3 {
    Vec3 { x: spec_sub(0, v.x), y: spec_sub(0, v.y), z: spec_sub(0, v.z) }
}

/// The dot product: fixed-point products, summed with saturation.
pub open spec fn spec_vdot(a: Vec3, b: Vec3) -> i64 {
    spec_add(spec_add(spec_mul(a.x, b.x), spec_mul(a.y, b.y)), spec_mul(a.z, b.z))
}

/// The cross product, componentwise from fixed-point products.
pub open spec fn spec_vcross(a: Vec3, b: Vec3) -> Vec3 {
    Vec3 {
        x: spec_sub(spec_mul(a.y, b.z), spec_mul(a.z, b.y)),
        y: spec_sub(spec_mul(a.z, b.x), spec_mul(a.x, b.z)),
        z: spec_sub(spec_mul(a.x, b.y), spec_mul(a.y, b.x)),
    }
}

/// The exact (unscaled) sum of squared components.
pub open spec fn spec_mag_sq_exact(v: Vec3) -> int {
    v.x * v.x + v.y * v.y + v.z * v.z
}

/// The vector magnitude: the rounded-down square root of the exact sum of
/// squares.  Squaring and taking the root cancels the fixed-point scale, so
/// no rescaling is needed.
pub open spec fn spec_magnitude(v: Vec3) -> i64 {
    sat(sqrt_floor(spec_mag_sq_exact(v) as nat) as int)
}

/// The squared magnitude as a fixed-point scalar (scaled, saturating).
pub open spec fn spec_magnitude_squared(v: Vec3) -> i64 {
    spec_add(spec_add(spec_mul(v.x, v.x), spec_mul(v.y, v.y)), spec_mul(v.z, v.z))
}

/// The unit vector along `v`: each component divided by the magnitude.
/// A zero-length vector normalizes to the zero vector.
pub open spec fn spec_normalize(v: Vec3) -> Vec3 {
    let m = spec_magnitude(v);
    Vec3 { x: spec_div(v.x, m), y: spec_div(v.y, m), z: spec_div(v.z, m) }
}

impl Vec3 {
    /// Build a vector from its components.
    pub fn new(x: i64, y: i64, z: i64) -> (r: Vec3)
        ensures
            r == (Vec3 { x, y, z }),
    {
        Vec3 { x, y, z }
    }

    /// The zero vector.
    pub fn zero() -> (r: Vec3)
        ensures
            r == (Vec3 { x: 0i64, y: 0i64, z: 0i64 }),
    {
        Vec3 { x: 0, y: 0, z: 0 }
    }

    /// The dot product of `self` and `other`.
    pub fn dot(&self, other: &Vec3) -> (r: i64)
        ensures
            r == spec_vdot(*self, *other),
    {
        sat_add(
            sat_add(fix_mul(self.x, other.x), fix_mul(self.y, other.y)),
            fix_mul(self.z, other.z),
        )
    }

    /// The cross product of `self` and `other`.
    pub fn cross(&self, other: &Vec3) -> (r: Vec3)
        ensures
            r == spec_vcross(*self, *other),
    {
        Vec3 {
            x: sat_sub(fix_mul(self.y, other.z), fix_mul(self.z, other.y)),
            y: sat_sub(fix_mul(self.z, other.x), fix_mul(self.x, other.z)),
            z: sat_sub(fix_mul(self.x, other.y), fix_mul(self.y, other.x)),
        }
    }

    /// The length of the vector, rounded down to the fixed-point grid.
    pub fn magnitude(&self) -> (r: i64)
        ensures
            r == spec_magnitude(*self),
    {
        let sx = sq_u128(self.x);
        let sy = sq_u128(self.y);
        let sz = sq_u128(self.z);
        let s: u128 = sx + sy + sz;
        let root = isqrt_u128(s);
        if root > i64::MAX as u64 {
            i64::MAX
        } else {
            root as i64
        }
    }

    /// The squared length as a fixed-point scalar.
    pub fn magnitude_squared(&self) -> (r: i64)
        ensures
            r == spec_magnitude_squared(*self),
    {
        sat_add(
            sat_add(fix_mul(self.x, self.x), fix_mul(self.y, self.y)),
            fix_mul(self.z, self.z),
        )
    }

    /// The unit vector along `self`; the zero vector stays zero.
    pub fn normalize(&self) -> (r: Vec3)
        ensures
            r == spec_normalize(*self),
    {
        let m = self.magnitude();
        Vec3 { x: fix_div(self.x, m), y: fix_div(self.y, m), z: fix_div(self.z, m) }
    }

    /// An alias for [`Vec3::normalize`].
    pub fn normalized(&self) -> (r: Vec3)
        ensures
            r == spec_normalize(*self),
    {
        self.normalize()
    }
}

impl std::ops::Add<Vec3> for Vec3 {
    type Output = Vec3;

    fn add(self, rhs: Vec3) -> (r: Vec3) {
        Vec3 {
            x: sat_add(self.x, rhs.x),
            y: sat_add(self.y, rhs.y),
            z: sat_add(self.z, rhs.z),
        }
    }
}

impl vstd::std_specs::ops::AddSpecImpl<Vec3> for Vec3 {
    open spec fn obeys_add_spec() -> bool {
        true
    }

    open spec fn add_req(self, rhs: Vec3) -> bool {
        true
    }

    open spec fn add_spec(self, rhs: Vec3) -> Vec3 {
        spec_vadd(self, rhs)
    }
}

impl std::ops::Sub<Vec3> for Vec3 {
    type Output = Vec3;

    fn sub(self, rhs: Vec3) -> (r: Vec3) {
        Vec3 {
            x: sat_sub(self.x, rhs.x),
            y: sat_sub(self.y, rhs.y),
            z: sat_sub(self.z, rhs.z),
        }
    }
}

impl vstd::std_specs::ops::SubSpecImpl<Vec3> for Vec3 {
    open spec fn obeys_sub_spec() -> bool {
        true
    }

    open spec fn sub_req(self, rhs: Vec3) -> bool {
        true
    }

    open spec fn sub_spec(self, rhs: Vec3) -> Vec3 {
        spec_vsub(self, rhs)
    }
}

impl std::ops::Mul<i64> for Vec3 {
    type Output = Vec3;

    fn mul(self, rhs: i64) -> (r: Vec3) {
        Vec3 {
            x: fix_mul(self.x, rhs),
            y: fix_mul(self.y, rhs),
            z: fix_mul(self.z, rhs),
        }
    }
}

impl vstd::std_specs::ops::MulSpecImpl<i64> for Vec3 {
    open spec fn obeys_mul_spec() -> bool {
        true
    }

    open spec fn mul_req(self, rhs: i64) -> bool {
        true
    }

    open spec fn mul_spec(self, rhs: i64) -> Vec3 {
        spec_vscale(self, rhs)
    }
}

impl std::ops::Neg for Vec3 {
    type Output = Vec3;

    fn neg(self) -> (r: Vec3) {
        Vec3 { x: sat_sub(0, self.x), y: sat_sub(0, self.y), z: sat_sub(0, self.z) }
    }
}

impl vstd::std_specs::ops::NegSpecImpl for Vec3 {
    open spec fn obeys_neg_spec() -> bool {
        true
    }

    open spec fn neg_req(self) -> bool {
        true
    }

    open spec fn neg_spec(self) -> Vec3 {
        spec_vneg(self)
    }
}

} // verus!
