//! Collision narrow-phase: per shape-pair contact geometry.
//!
//! One pure function per supported shape pair, each consuming shape
//! parameters by value and returning a contact: a hit flag, a separation
//! normal, and a penetration depth.  Contact normals point from the first
//! body toward the second (or outward for a static surface); the
//! sphere-plane test is deliberately not symmetric, and a caller that swaps
//! its arguments must negate the returned normal — the resolver's
//! pair-enumeration order depends on that exact convention.

use crate::fixed::{sat_add, sat_sub, spec_add, spec_sub, SCALE};
use crate::vector::{
    spec_magnitude, spec_normalize, spec_vdot, spec_vsub, Vec3,
};
use vstd::prelude::*;

verus! {

/// A closed collision-shape variant.
#[derive(Clone, Copy, Debug, PartialEq, Eq, Structural)]
pub enum CollisionShape {
    /// A sphere of the given radius around the body position.
    Sphere { radius: i64 },
    /// A plane with a unit normal, at the given signed distance from the
    /// origin along that normal.
    Plane { normal: Vec3, distance: i64 },
    /// An axis-aligned box; the caller keeps `min <= max` per axis.
    AABB { min: Vec3, max: Vec3 },
}

/// The result of a narrow-phase test: a hit flag, the contact normal, and
/// how deep the shapes interpenetrate.  Contacts are built fresh per pair
/// per tick and never carried across ticks.
#[derive(Clone, Copy, Debug, PartialEq, Eq, Structural)]
pub struct CollisionInfo {
    pub is_colliding: bool,
    pub normal: Vec3,
    pub penetration_depth: i64,
}

/// The "no contact" sentinel: not colliding, zero normal, zero depth.
pub open spec fn spec_no_contact() -> CollisionInfo {
    CollisionInfo {
        is_colliding: false,
        normal: Vec3 { x: 0, y: 0, z: 0 },
        penetration_depth: 0,
    }
}

impl CollisionInfo {
    /// The "no contact" sentinel.
    pub fn none() -> (r: CollisionInfo)
        ensures
            r == spec_no_contact(),
    {
        CollisionInfo {
            is_colliding: false,
            normal: Vec3::zero(),
            penetration_depth: 0,
        }
    }

    /// A contact with the given normal and penetration depth.
    pub fn new(normal: Vec3, penetration_depth: i64) -> (r: CollisionInfo)
        ensures
            r == (CollisionInfo { is_colliding: true, normal, penetration_depth }),
    {
        CollisionInfo { is_colliding: true, normal, penetration_depth }
    }
}

/// The smaller of two scalars.
pub open spec fn spec_min(a: i64, b: i64) -> i64 {
    if a <= b {
        a
    } else {
        b
    }
}

/// The larger of two scalars.
pub open spec fn spec_max(a: i64, b: i64) -> i64 {
    if a >= b {
        a
    } else {
        b
    }
}

/// Clamp `c` into `[lo, hi]` (assuming `lo <= hi`).
pub open spec fn spec_clamp(c: i64, lo: i64, hi: i64) -> i64 {
    if c < lo {
        lo
    } else if c > hi {
        hi
    } else {
        c
    }
}

fn min_scalar(a: i64, b: i64) -> (r: i64)
    ensures
        r == spec_min(a, b),
{
    if a <= b {
        a
    } else {
        b
    }
}

fn max_scalar(a: i64, b: i64) -> (r: i64)
    ensures
        r == spec_max(a, b),
{
    if a >= b {
        a
    } else {
        b
    }
}

pub(crate) fn clamp_scalar(c: i64, lo: i64, hi: i64) -> (r: i64)
    ensures
        r == spec_clamp(c, lo, hi),
{
    if c < lo {
        lo
    } else if c > hi {
        hi
    } else {
        c
    }
}

/// What the sphere-sphere test returns: colliding exactly when the distance
/// between the centers is at most the sum of the radii; the penetration is
/// then exactly that sum minus the distance; the normal points from the
/// first center toward the second, defaulting to the +X axis when the
/// centers coincide.
pub open spec fn spec_sphere_vs_sphere(
    pos_a: Vec3,
    radius_a: i64,
    pos_b: Vec3,
    radius_b: i64,
) -> CollisionInfo {
    let delta = spec_vsub(pos_b, pos_a);
    let distance = spec_magnitude(delta);
    let sum_radii = spec_add(radius_a, radius_b);
    if distance <= sum_radii {
        let normal = if distance > 0 {
            spec_normalize(delta)
        } else {
            Vec3 { x: SCALE, y: 0, z: 0 }
        };
        CollisionInfo {
            is_colliding: true,
            normal,
            penetration_depth: spec_sub(sum_radii, distance),
        }
    } else {
        spec_no_contact()
    }
}

/// Sphere vs. sphere.
pub fn sphere_vs_sphere(pos_a: Vec3, radius_a: i64, pos_b: Vec3, radius_b: i64) -> (r:
    CollisionInfo)
    ensures
        r == spec_sphere_vs_sphere(pos_a, radius_a, pos_b, radius_b),
        r.is_colliding == (spec_magnitude(spec_vsub(pos_b, pos_a)) <= spec_add(
            radius_a,
            radius_b,
        )),
        r.is_colliding ==> r.penetration_depth == spec_sub(
            spec_add(radius_a, radius_b),
            spec_magnitude(spec_vsub(pos_b, pos_a)),
        ),
{
    let delta = pos_b - pos_a;
    let distance = delta.magnitude();
    let sum_radii = sat_add(radius_a, radius_b);

    if distance <= sum_radii {
        let penetration = sat_sub(sum_radii, distance);
        let normal = if distance > 0 {
            delta.normalize()
        } else {
            Vec3::new(SCALE, 0, 0)
        };
        CollisionInfo::new(normal, penetration)
    } else {
        CollisionInfo::none()
    }
}

/// What the sphere-plane test returns: with `sd` the signed distance of the
/// sphere center from the plane (along the plane normal), colliding exactly
/// when `sd` is at most the radius; the normal is the plane's own normal,
/// unchanged; the penetration is the radius minus `sd`.
pub open spec fn spec_sphere_vs_plane(
    sphere_pos: Vec3,
    sphere_radius: i64,
    plane_normal: Vec3,
    plane_distance: i64,
) -> CollisionInfo {
    let signed_distance = spec_sub(spec_vdot(sphere_pos, plane_normal), plane_distance);
    if signed_distance <= sphere_radius {
        CollisionInfo {
            is_colliding: true,
            normal: plane_normal,
            penetration_depth: spec_sub(sphere_radius, signed_distance),
        }
    } else {
        spec_no_contact()
    }
}

/// Sphere vs. plane.  Not symmetric: a caller that passes the plane first
/// must negate the returned normal.
pub fn sphere_vs_plane(
    sphere_pos: Vec3,
    sphere_radius: i64,
    plane_normal: Vec3,
    plane_distance: i64,
) -> (r: CollisionInfo)
    ensures
        r == spec_sphere_vs_plane(sphere_pos, sphere_radius, plane_normal, plane_distance),
{
    let signed_distance = sat_sub(sphere_pos.dot(&plane_normal), plane_distance);
    if signed_distance <= sphere_radius {
        CollisionInfo::new(plane_normal, sat_sub(sphere_radius, signed_distance))
    } else {
        CollisionInfo::none()
    }
}

/// The overlap of two intervals: negative when they are apart.
pub open spec fn spec_overlap(lo_a: i64, hi_a: i64, lo_b: i64, hi_b: i64) -> i64 {
    spec_sub(spec_min(hi_a, hi_b), spec_max(lo_a, lo_b))
}

/// What the box-box test returns: colliding exactly when the axis intervals
/// overlap on all three axes; the penetration is then the least per-axis
/// overlap; the normal is the unit axis of least overlap (ties resolved in
/// x, y, z order), pointing from the first box toward the second, where
/// "toward" compares the doubled interval midpoints on that axis.
pub open spec fn spec_aabb_vs_aabb(min_a: Vec3, max_a: Vec3, min_b: Vec3, max_b: Vec3)
    -> CollisionInfo {
    let ox = spec_overlap(min_a.x, max_a.x, min_b.x, max_b.x);
    let oy = spec_overlap(min_a.y, max_a.y, min_b.y, max_b.y);
    let oz = spec_overlap(min_a.z, max_a.z, min_b.z, max_b.z);
    if ox >= 0 && oy >= 0 && oz >= 0 {
        if ox <= oy && ox <= oz {
            let toward_b = spec_add(min_a.x, max_a.x) <= spec_add(min_b.x, max_b.x);
            CollisionInfo {
                is_colliding: true,
                normal: Vec3 { x: if toward_b { SCALE } else { (-SCALE) as i64 }, y: 0, z: 0 },
                penetration_depth: ox,
            }
        } else if oy <= oz {
            let toward_b = spec_add(min_a.y, max_a.y) <= spec_add(min_b.y, max_b.y);
            CollisionInfo {
                is_colliding: true,
                normal: Vec3 { x: 0, y: if toward_b { SCALE } else { (-SCALE) as i64 }, z: 0 },
                penetration_depth: oy,
            }
        } else {
            let toward_b = spec_add(min_a.z, max_a.z) <= spec_add(min_b.z, max_b.z);
            CollisionInfo {
                is_colliding: true,
                normal: Vec3 { x: 0, y: 0, z: if toward_b { SCALE } else { (-SCALE) as i64 } },
                penetration_depth: oz,
            }
        }
    } else {
        spec_no_contact()
    }
}

/// Box vs. box: a single-axis minimum-translation heuristic, not a full
/// separating-axis solve.
pub fn aabb_vs_aabb(min_a: Vec3, max_a: Vec3, min_b: Vec3, max_b: Vec3) -> (r: CollisionInfo)
    ensures
        r == spec_aabb_vs_aabb(min_a, max_a, min_b, max_b),
{
    let ox = sat_sub(min_scalar(max_a.x, max_b.x), max_scalar(min_a.x, min_b.x));
    let oy = sat_sub(min_scalar(max_a.y, max_b.y), max_scalar(min_a.y, min_b.y));
    let oz = sat_sub(min_scalar(max_a.z, max_b.z), max_scalar(min_a.z, min_b.z));
    if ox >= 0 && oy >= 0 && oz >= 0 {
        if ox <= oy && ox <= oz {
            let toward_b = sat_add(min_a.x, max_a.x) <= sat_add(min_b.x, max_b.x);
            CollisionInfo::new(Vec3::new(if toward_b { SCALE } else { -SCALE }, 0, 0), ox)
        } else if oy <= oz {
            let toward_b = sat_add(min_a.y, max_a.y) <= sat_add(min_b.y, max_b.y);
            CollisionInfo::new(Vec3::new(0, if toward_b { SCALE } else { -SCALE }, 0), oy)
        } else {
            let toward_b = sat_add(min_a.z, max_a.z) <= sat_add(min_b.z, max_b.z);
            CollisionInfo::new(Vec3::new(0, 0, if toward_b { SCALE } else { -SCALE }), oz)
        }
    } else {
        CollisionInfo::none()
    }
}

/// The point of the box closest to `c`: a per-axis clamp.
pub open spec fn spec_closest_point(c: Vec3, min: Vec3, max: Vec3) -> Vec3 {
    Vec3 {
        x: spec_clamp(c.x, min.x, max.x),
        y: spec_clamp(c.y, min.y, max.y),
        z: spec_clamp(c.z, min.z, max.z),
    }
}

/// For a sphere center inside the box: the unit axis toward the nearest
/// face, oriented outward (ties resolved toward the lower face, then in x,
/// y, z axis order), paired with nothing else — the penetration in that
/// deep case is the full radius.
pub open spec fn spec_inside_normal(c: Vec3, min: Vec3, max: Vec3) -> Vec3 {
    let dx = spec_min(spec_sub(c.x, min.x), spec_sub(max.x, c.x));
    let dy = spec_min(spec_sub(c.y, min.y), spec_sub(max.y, c.y));
    let dz = spec_min(spec_sub(c.z, min.z), spec_sub(max.z, c.z));
    if dx <= dy && dx <= dz {
        Vec3 { x: if spec_sub(c.x, min.x) <= spec_sub(max.x, c.x) { (-SCALE) as i64 } else { SCALE }, y: 0, z: 0 }
    } else if dy <= dz {
        Vec3 { x: 0, y: if spec_sub(c.y, min.y) <= spec_sub(max.y, c.y) { (-SCALE) as i64 } else { SCALE }, z: 0 }
    } else {
        Vec3 { x: 0, y: 0, z: if spec_sub(c.z, min.z) <= spec_sub(max.z, c.z) { (-SCALE) as i64 } else { SCALE } }
    }
}

/// What the sphere-box test returns: with `p` the closest point of the box
/// to the sphere center, colliding exactly when the center is within the
/// radius of `p`; the penetration is the radius minus that distance.  When
/// the center is outside the box the normal points from `p` toward the
/// center; when it is inside (deep penetration) the normal is the axis of
/// least distance to a face, oriented outward.
pub open spec fn spec_sphere_vs_aabb(
    sphere_pos: Vec3,
    sphere_radius: i64,
    aabb_min: Vec3,
    aabb_max: Vec3,
) -> CollisionInfo {
    let closest = spec_closest_point(sphere_pos, aabb_min, aabb_max);
    let delta = spec_vsub(sphere_pos, closest);
    let distance = spec_magnitude(delta);
    if distance <= sphere_radius {
        let normal = if distance > 0 {
            spec_normalize(delta)
        } else {
            spec_inside_normal(sphere_pos, aabb_min, aabb_max)
        };
        CollisionInfo {
            is_colliding: true,
            normal,
            penetration_depth: spec_sub(sphere_radius, distance),
        }
    } else {
        spec_no_contact()
    }
}

/// Sphere vs. box.
pub fn sphere_vs_aabb(sphere_pos: Vec3, sphere_radius: i64, aabb_min: Vec3, aabb_max: Vec3) -> (r:
    CollisionInfo)
    ensures
        r == spec_sphere_vs_aabb(sphere_pos, sphere_radius, aabb_min, aabb_max),
{
    let closest = Vec3::new(
        clamp_scalar(sphere_pos.x, aabb_min.x, aabb_max.x),
        clamp_scalar(sphere_pos.y, aabb_min.y, aabb_max.y),
        clamp_scalar(sphere_pos.z, aabb_min.z, aabb_max.z),
    );
    let delta = sphere_pos - closest;
    let distance = delta.magnitude();
    if distance <= sphere_radius {
        let normal = if distance > 0 {
            delta.normalize()
        } else {
            inside_normal(sphere_pos, aabb_min, aabb_max)
        };
        CollisionInfo::new(normal, sat_sub(sphere_radius, distance))
    } else {
        CollisionInfo::none()
    }
}

/// The outward unit axis of least distance-to-face, for a point inside the
/// box.
fn inside_normal(c: Vec3, min: Vec3, max: Vec3) -> (r: Vec3)
    ensures
        r == spec_inside_normal(c, min, max),
{
    let dx_lo = sat_sub(c.x, min.x);
    let dx_hi = sat_sub(max.x, c.x);
    let dy_lo = sat_sub(c.y, min.y);
    let dy_hi = sat_sub(max.y, c.y);
    let dz_lo = sat_sub(c.z, min.z);
    let dz_hi = sat_sub(max.z, c.z);
    let dx = min_scalar(dx_lo, dx_hi);
    let dy = min_scalar(dy_lo, dy_hi);
    let dz = min_scalar(dz_lo, dz_hi);
    if dx <= dy && dx <= dz {
        Vec3::new(if dx_lo <= dx_hi { -SCALE } else { SCALE }, 0, 0)
    } else if dy <= dz {
        Vec3::new(0, if dy_lo <= dy_hi { -SCALE } else { SCALE }, 0)
    } else {
        Vec3::new(0, 0, if dz_lo <= dz_hi { -SCALE } else { SCALE })
    }
}

} // verus!
