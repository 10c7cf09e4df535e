//! The simulation world: the ordered body list, the global constants, and
//! the fixed-timestep loop.
//!
//! A host calls [`PhysicsWorld::update`] once per frame with the measured
//! frame time; the world banks that time in an accumulator and spends it in
//! constant-size ticks.  One tick applies gravity and integrates every
//! dynamic body, then detects all pairwise contacts against the moved
//! bodies, and finally resolves the recorded contacts in pair-enumeration
//! order: positional correction, a restitution impulse with a penetration
//! bias, and a Coulomb friction impulse.  The whole tick is pinned to the
//! spec-level model [`spec_world_tick`], so a world's entire trajectory is a
//! mathematical function of its starting state and the update deltas.

use crate::body::{
    spec_friction, spec_position, spec_rigid_update, spec_velocity, Body, RigidBody,
};
use crate::collision::{
    aabb_vs_aabb, clamp_scalar, spec_aabb_vs_aabb, spec_clamp, spec_no_contact,
    spec_sphere_vs_aabb, spec_sphere_vs_plane, spec_sphere_vs_sphere, sphere_vs_aabb,
    sphere_vs_plane, sphere_vs_sphere, CollisionInfo, CollisionShape,
};
use crate::fixed::{
    abs_sat, fix_div, fix_mul, sat_add, sat_sub, spec_abs_sat, spec_add, spec_div, spec_mul,
    spec_sub, SCALE,
};
use crate::vector::{
    spec_magnitude, spec_normalize, spec_vadd, spec_vdot, spec_vneg, spec_vscale, spec_vsub, Vec3,
};
use vstd::arithmetic::div_mod::lemma_fundamental_div_mod_converse;
use vstd::prelude::*;

verus! {

/// Gravity bias factor for the normal impulse (0.2): a velocity bias
/// proportional to residual penetration (Baumgarte stabilization) instead of
/// a full positional solve.
pub const PENETRATION_BIAS: i64 = 2_000_000;

/// One half, for averaging the two participants' friction coefficients.
pub const HALF: i64 = 5_000_000;

/// The restitution worlds are created with (0.5).
pub const DEFAULT_RESTITUTION: i64 = 5_000_000;

/// The friction coefficient worlds are created with (0.25).
pub const DEFAULT_FRICTION: i64 = 2_500_000;

/// The vertical component of default gravity (-9.8).
pub const DEFAULT_GRAVITY_Y: i64 = -98_000_000;

/// Tangential speeds at or below this are treated as no sliding at all, and
/// friction is skipped for the pair.
pub const FRICTION_EPSILON: i64 = 1;

/// The inverse mass a contact sees: zero for an immovable body (its mass is
/// effectively infinite), the fixed-point reciprocal for a dynamic one.
pub open spec fn spec_inv_mass(b: Body) -> i64 {
    match b {
        Body::Rigid(rb) => spec_div(SCALE, rb.mass),
        Body::Static(_) => 0,
    }
}

/// The mass of a dynamic body (only ever read for dynamic participants).
pub open spec fn spec_mass(b: Body) -> i64 {
    match b {
        Body::Rigid(rb) => rb.mass,
        Body::Static(_) => 0,
    }
}

/// `b` with the given position and velocity when it is dynamic; an
/// immovable body is returned unchanged.
pub open spec fn spec_with_pos_vel(b: Body, p: Vec3, v: Vec3) -> Body {
    match b {
        Body::Rigid(rb) => Body::Rigid(RigidBody { position: p, velocity: v, ..rb }),
        Body::Static(_) => b,
    }
}

/// The contact the narrow-phase reports for an ordered body pair.  The
/// sphere-plane and sphere-box tests are dispatched sphere-first; when the
/// pair order is the other way around the returned normal is negated, which
/// keeps every normal pointing the way the resolver expects.  Unsupported
/// pairs (plane-plane, plane-box) never collide.
pub open spec fn spec_pair_contact(bi: Body, bj: Body) -> CollisionInfo {
    match (spec_shape_of(bi), spec_shape_of(bj)) {
        (
            CollisionShape::Sphere { radius: r1 },
            CollisionShape::Sphere { radius: r2 },
        ) => spec_sphere_vs_sphere(spec_position(bi), r1, spec_position(bj), r2),
        (
            CollisionShape::Sphere { radius },
            CollisionShape::Plane { normal, distance },
        ) => spec_sphere_vs_plane(spec_position(bi), radius, normal, distance),
        (
            CollisionShape::Plane { normal, distance },
            CollisionShape::Sphere { radius },
        ) => spec_negate_if_hit(spec_sphere_vs_plane(spec_position(bj), radius, normal, distance)),
        (
            CollisionShape::Sphere { radius },
            CollisionShape::AABB { min, max },
        ) => spec_sphere_vs_aabb(spec_position(bi), radius, min, max),
        (
            CollisionShape::AABB { min, max },
            CollisionShape::Sphere { radius },
        ) => spec_negate_if_hit(spec_sphere_vs_aabb(spec_position(bj), radius, min, max)),
        (
            CollisionShape::AABB { min: min1, max: max1 },
            CollisionShape::AABB { min: min2, max: max2 },
        ) => spec_aabb_vs_aabb(min1, max1, min2, max2),
        _ => spec_no_contact(),
    }
}

/// A contact with its normal flipped, for tests taken with the pair order
/// swapped; a miss is returned unchanged.
pub open spec fn spec_negate_if_hit(info: CollisionInfo) -> CollisionInfo {
    if info.is_colliding {
        CollisionInfo { normal: spec_vneg(info.normal), ..info }
    } else {
        info
    }
}

/// The shape of a body of either kind (re-exported shape accessor).
pub open spec fn spec_shape_of(b: Body) -> CollisionShape {
    crate::body::spec_shape(b)
}

/// A pair is recorded for resolution only when the narrow-phase reports a
/// hit and at least one participant is dynamic: overlaps between two
/// immovable bodies are never recorded, even if geometrically true.
pub open spec fn spec_should_record(bi: Body, bj: Body) -> bool {
    spec_pair_contact(bi, bj).is_colliding && (bi is Rigid || bj is Rigid)
}

/// The recorded contacts from pair `(i, j)` onward, in enumeration order:
/// `j` sweeps `i + 1 .. n`, then `i` advances.
pub open spec fn spec_scan(bodies: Seq<Body>, i: int, j: int) -> Seq<(int, int, CollisionInfo)>
    recommends
        0 <= i,
        i < j,
    decreases bodies.len() - i, bodies.len() - j,
        when 0 <= i <= j
{
    if i + 1 >= bodies.len() {
        Seq::empty()
    } else if j >= bodies.len() {
        spec_scan(bodies, i + 1, i + 2)
    } else if spec_should_record(bodies[i], bodies[j]) {
        seq![(i, j, spec_pair_contact(bodies[i], bodies[j]))] + spec_scan(bodies, i, j + 1)
    } else {
        spec_scan(bodies, i, j + 1)
    }
}

/// Every recorded contact of the whole body list, in enumeration order.
pub open spec fn spec_contacts(bodies: Seq<Body>) -> Seq<(int, int, CollisionInfo)> {
    spec_scan(bodies, 0, 1)
}

/// The post-resolution velocities of one contact pair.  When the relative
/// velocity along the normal is negative the bodies are already separating
/// and no impulse is applied.  Otherwise a restitution impulse with a
/// penetration bias is applied along the normal, and then a Coulomb
/// friction impulse (clamped by the averaged friction coefficients) along
/// the tangent of the post-impulse relative velocity — skipped entirely
/// when the tangential speed is negligible.
pub open spec fn spec_contact_velocities(
    b1: Body,
    b2: Body,
    info: CollisionInfo,
    e: i64,
    ts: i64,
) -> (Vec3, Vec3) {
    let vel1 = spec_velocity(b1);
    let vel2 = spec_velocity(b2);
    let van = spec_vdot(spec_vsub(vel1, vel2), info.normal);
    if van < 0 {
        (vel1, vel2)
    } else {
        let inv1 = spec_inv_mass(b1);
        let inv2 = spec_inv_mass(b2);
        let denom = spec_add(inv1, inv2);
        let bias = spec_div(spec_mul(PENETRATION_BIAS, info.penetration_depth), ts);
        let imp_n = spec_div(spec_sub(spec_sub(0, spec_mul(spec_add(SCALE, e), van)), bias), denom);
        let normal_impulse = spec_vscale(info.normal, imp_n);
        let v1 = if b1 is Rigid {
            spec_vadd(vel1, spec_vscale(normal_impulse, inv1))
        } else {
            vel1
        };
        let v2 = if b2 is Rigid {
            spec_vsub(vel2, spec_vscale(normal_impulse, inv2))
        } else {
            vel2
        };
        let combined = spec_mul(spec_add(spec_friction(b1), spec_friction(b2)), HALF);
        let rv = spec_vsub(v1, v2);
        let tangent_dir = spec_vsub(rv, spec_vscale(info.normal, spec_vdot(rv, info.normal)));
        let tmag = spec_magnitude(tangent_dir);
        if tmag > FRICTION_EPSILON {
            let unit_tangent = spec_normalize(tangent_dir);
            let imp_t = spec_div(spec_sub(0, spec_vdot(rv, unit_tangent)), denom);
            let limit = spec_mul(spec_abs_sat(imp_n), combined);
            let fric = spec_clamp(imp_t, spec_sub(0, limit), limit);
            let fi = spec_vscale(unit_tangent, fric);
            (
                if b1 is Rigid {
                    spec_vadd(v1, spec_vscale(fi, inv1))
                } else {
                    v1
                },
                if b2 is Rigid {
                    spec_vsub(v2, spec_vscale(fi, inv2))
                } else {
                    v2
                },
            )
        } else {
            (v1, v2)
        }
    }
}

/// The post-correction positions of one contact pair: each dynamic
/// participant is displaced along (second body) or against (first body) the
/// contact normal, in proportion to the other participant's share of the
/// total mass; an immovable partner makes the dynamic one absorb the whole
/// correction, and an immovable body never moves.
pub open spec fn spec_contact_positions(b1: Body, b2: Body, info: CollisionInfo) -> (Vec3, Vec3) {
    let pos1 = spec_position(b1);
    let pos2 = spec_position(b2);
    let separation = spec_vscale(info.normal, info.penetration_depth);
    let mass_sum = spec_add(spec_mass(b1), spec_mass(b2));
    let p1 = if b1 is Rigid {
        if b2 is Static {
            spec_vsub(pos1, separation)
        } else {
            spec_vsub(pos1, spec_vscale(separation, spec_div(spec_mass(b2), mass_sum)))
        }
    } else {
        pos1
    };
    let p2 = if b2 is Rigid {
        if b1 is Static {
            spec_vadd(pos2, separation)
        } else {
            spec_vadd(pos2, spec_vscale(separation, spec_div(spec_mass(b1), mass_sum)))
        }
    } else {
        pos2
    };
    (p1, p2)
}

/// One contact pair, fully resolved: corrected positions and impulse-updated
/// velocities; immovable participants come back unchanged.
pub open spec fn spec_resolve_bodies(b1: Body, b2: Body, info: CollisionInfo, e: i64, ts: i64)
    -> (Body, Body) {
    let positions = spec_contact_positions(b1, b2, info);
    let velocities = spec_contact_velocities(b1, b2, info, e, ts);
    (
        spec_with_pos_vel(b1, positions.0, velocities.0),
        spec_with_pos_vel(b2, positions.1, velocities.1),
    )
}

/// The body list after resolving one recorded contact in place.
pub open spec fn spec_apply_contact(
    bodies: Seq<Body>,
    i: int,
    j: int,
    info: CollisionInfo,
    e: i64,
    ts: i64,
) -> Seq<Body>
    recommends
        0 <= i < bodies.len(),
        0 <= j < bodies.len(),
{
    let pair = spec_resolve_bodies(bodies[i], bodies[j], info, e, ts);
    bodies.update(i, pair.0).update(j, pair.1)
}

/// The body list after resolving a list of recorded contacts in order.
/// Each contact reads the positions and velocities left by the contacts
/// before it; only the contact geometry itself is from detection time.
pub open spec fn spec_resolve_list(
    bodies: Seq<Body>,
    contacts: Seq<(int, int, CollisionInfo)>,
    e: i64,
    ts: i64,
) -> Seq<Body>
    decreases contacts.len(),
{
    if contacts.len() == 0 {
        bodies
    } else {
        let c = contacts[0];
        spec_resolve_list(
            spec_apply_contact(bodies, c.0, c.1, c.2, e, ts),
            contacts.drop_first(),
            e,
            ts,
        )
    }
}

/// One body after the integration phase of a tick: a dynamic body gets the
/// gravity force for its mass and one integration step; an immovable body
/// is untouched.
pub open spec fn spec_integrate_body(b: Body, gravity: Vec3, ts: i64) -> Body {
    match b {
        Body::Rigid(rb) => Body::Rigid(
            spec_rigid_update(
                crate::body::spec_apply_force(rb, spec_vscale(gravity, rb.mass)),
                ts,
            ),
        ),
        Body::Static(_) => b,
    }
}

/// The whole body list after the integration phase.
pub open spec fn spec_integrate_all(bodies: Seq<Body>, gravity: Vec3, ts: i64) -> Seq<Body> {
    bodies.map_values(|b: Body| spec_integrate_body(b, gravity, ts))
}

/// One fixed tick: integrate every dynamic body, then detect all pairwise
/// contacts against the moved bodies, then resolve them in order.
pub open spec fn spec_world_tick(bodies: Seq<Body>, gravity: Vec3, e: i64, ts: i64) -> Seq<Body> {
    let moved = spec_integrate_all(bodies, gravity, ts);
    spec_resolve_list(moved, spec_contacts(moved), e, ts)
}

/// `n` fixed ticks in a row.
pub open spec fn spec_world_ticks(
    bodies: Seq<Body>,
    gravity: Vec3,
    e: i64,
    ts: i64,
    n: nat,
) -> Seq<Body>
    decreases n,
{
    if n == 0 {
        bodies
    } else {
        spec_world_tick(spec_world_ticks(bodies, gravity, e, ts, (n - 1) as nat), gravity, e, ts)
    }
}

/// How many ticks one update call runs: the banked time plus the new delta,
/// divided by the timestep.
pub open spec fn spec_tick_count(acc: i64, delta_time: i64, ts: i64) -> nat
    recommends
        ts > 0,
        0 <= acc,
        0 <= delta_time,
{
    ((acc + delta_time) / (ts as int)) as nat
}

/// The banked time one update call leaves behind: what remained below one
/// whole tick.
pub open spec fn spec_update_acc(acc: i64, ts: i64, delta_time: i64) -> i64
    recommends
        ts > 0,
        0 <= acc,
        0 <= delta_time,
{
    ((acc + delta_time) % (ts as int)) as i64
}

/// The simulation world: the ordered body list and the global constants.
///
/// The world owns its bodies; callers refer to a body only by its insertion
/// index, and there is no removal.  The accumulator and the timestep are
/// working state of the update loop: after every update the accumulator
/// holds the time debt still below one tick, in `[0, fixed_timestep)`.
pub struct PhysicsWorld {
    pub bodies: Vec<Body>,
    pub accumulator: i64,
    pub fixed_timestep: i64,
    pub gravity: Vec3,
    pub restitution: i64,
    pub friction: i64,
}

impl PhysicsWorld {
    /// Well-formed: a positive timestep, and a banked time debt of less
    /// than one tick.
    pub open spec fn wf(&self) -> bool {
        &&& self.fixed_timestep > 0
        &&& 0 <= self.accumulator < self.fixed_timestep
    }

    /// An empty world with default gravity (0, -9.8, 0) and restitution 0.5.
    pub fn new(fixed_timestep: i64) -> (r: PhysicsWorld)
        requires
            fixed_timestep > 0,
        ensures
            r.wf(),
            r.bodies@ == Seq::<Body>::empty(),
            r.accumulator == 0,
            r.fixed_timestep == fixed_timestep,
            r.gravity == (Vec3 { x: 0, y: DEFAULT_GRAVITY_Y, z: 0 }),
            r.restitution == DEFAULT_RESTITUTION,
            r.friction == DEFAULT_FRICTION,
    {
        PhysicsWorld {
            bodies: Vec::new(),
            accumulator: 0,
            fixed_timestep,
            gravity: Vec3::new(0, DEFAULT_GRAVITY_Y, 0),
            restitution: DEFAULT_RESTITUTION,
            friction: DEFAULT_FRICTION,
        }
    }

    /// An empty world with a caller-supplied gravity vector.
    pub fn with_gravity(fixed_timestep: i64, gravity: Vec3) -> (r: PhysicsWorld)
        requires
            fixed_timestep > 0,
        ensures
            r.wf(),
            r.bodies@ == Seq::<Body>::empty(),
            r.accumulator == 0,
            r.fixed_timestep == fixed_timestep,
            r.gravity == gravity,
            r.restitution == DEFAULT_RESTITUTION,
            r.friction == DEFAULT_FRICTION,
    {
        PhysicsWorld {
            bodies: Vec::new(),
            accumulator: 0,
            fixed_timestep,
            gravity,
            restitution: DEFAULT_RESTITUTION,
            friction: DEFAULT_FRICTION,
        }
    }

    /// Advance the simulation by `delta_time`: bank the time, then run one
    /// fixed tick per whole timestep banked.  Any call sequence whose deltas
    /// sum to the same total runs the same sequence of ticks, which is what
    /// makes the simulation independent of the host's frame rate.
    #[verifier::loop_isolation(false)]
    pub fn update(&mut self, delta_time: i64)
        requires
            old(self).wf(),
            0 <= delta_time,
            old(self).accumulator + delta_time <= i64::MAX,
        ensures
            final(self).wf(),
            final(self).bodies@ == spec_world_ticks(
                old(self).bodies@,
                old(self).gravity,
                old(self).restitution,
                old(self).fixed_timestep,
                spec_tick_count(old(self).accumulator, delta_time, old(self).fixed_timestep),
            ),
            final(self).accumulator == spec_update_acc(
                old(self).accumulator,
                old(self).fixed_timestep,
                delta_time,
            ),
            final(self).fixed_timestep == old(self).fixed_timestep,
            final(self).gravity == old(self).gravity,
            final(self).restitution == old(self).restitution,
            final(self).friction == old(self).friction,
    {
        let ghost bodies0 = self.bodies@;
        let ghost ts0 = self.fixed_timestep;
        self.accumulator = self.accumulator + delta_time;
        let ghost total = self.accumulator as int;
        let ghost mut k: int = 0;
        while self.accumulator >= self.fixed_timestep
            invariant
                0 <= self.accumulator,
                0 <= k,
                self.accumulator + k * ts0 == total,
                self.bodies@ == spec_world_ticks(
                    bodies0,
                    old(self).gravity,
                    old(self).restitution,
                    ts0,
                    k as nat,
                ),
                self.fixed_timestep == ts0,
                self.gravity == old(self).gravity,
                self.restitution == old(self).restitution,
                self.friction == old(self).friction,
            decreases self.accumulator,
        {
            self.fixed_update();
            self.accumulator = self.accumulator - self.fixed_timestep;
            proof {
                k = k + 1;
                assert(k * ts0 == (k - 1) * ts0 + ts0) by (nonlinear_arith);
                assert(spec_world_ticks(
                    bodies0,
                    old(self).gravity,
                    old(self).restitution,
                    ts0,
                    k as nat,
                ) == spec_world_tick(
                    spec_world_ticks(
                        bodies0,
                        old(self).gravity,
                        old(self).restitution,
                        ts0,
                        (k - 1) as nat,
                    ),
                    old(self).gravity,
                    old(self).restitution,
                    ts0,
                ));
            }
        }
        proof {
            lemma_fundamental_div_mod_converse(total, ts0 as int, k, self.accumulator as int);
        }
    }

    /// One fixed tick: gravity and integration for every dynamic body, then
    /// collision detection and resolution.
    #[verifier::loop_isolation(false)]
    fn fixed_update(&mut self)
        ensures
            final(self).bodies@ == spec_world_tick(
                old(self).bodies@,
                old(self).gravity,
                old(self).restitution,
                old(self).fixed_timestep,
            ),
            final(self).accumulator == old(self).accumulator,
            final(self).fixed_timestep == old(self).fixed_timestep,
            final(self).gravity == old(self).gravity,
            final(self).restitution == old(self).restitution,
            final(self).friction == old(self).friction,
    {
        let ghost bodies0 = self.bodies@;
        let n = self.bodies.len();
        let mut idx: usize = 0;
        while idx < n
            invariant
                idx <= n,
                self.bodies@.len() == n,
                forall|m: int|
                    0 <= m < idx ==> self.bodies@[m] == spec_integrate_body(
                        bodies0[m],
                        old(self).gravity,
                        old(self).fixed_timestep,
                    ),
                forall|m: int| idx <= m < n ==> self.bodies@[m] == bodies0[m],
                self.accumulator == old(self).accumulator,
                self.fixed_timestep == old(self).fixed_timestep,
                self.gravity == old(self).gravity,
                self.restitution == old(self).restitution,
                self.friction == old(self).friction,
            decreases n - idx,
        {
            let b = self.bodies[idx];
            if let Body::Rigid(mut rb) = b {
                let gravity_force = self.gravity * rb.mass;
                rb.apply_force(gravity_force);
                rb.update(self.fixed_timestep);
                self.bodies[idx] = Body::Rigid(rb);
            }
            idx += 1;
        }
        proof {
            assert(self.bodies@ =~= spec_integrate_all(
                bodies0,
                old(self).gravity,
                old(self).fixed_timestep,
            ));
        }
        self.resolve_collisions();
    }

    /// Detect every colliding pair with a dynamic participant (phase one,
    /// against a frozen body list), then resolve the recorded contacts in
    /// enumeration order (phase two).  The split keeps detection from seeing
    /// state mutated mid-scan.
    #[verifier::loop_isolation(false)]
    fn resolve_collisions(&mut self)
        ensures
            final(self).bodies@ == spec_resolve_list(
                old(self).bodies@,
                spec_contacts(old(self).bodies@),
                old(self).restitution,
                old(self).fixed_timestep,
            ),
            final(self).accumulator == old(self).accumulator,
            final(self).fixed_timestep == old(self).fixed_timestep,
            final(self).gravity == old(self).gravity,
            final(self).restitution == old(self).restitution,
            final(self).friction == old(self).friction,
    {
        let ghost bodies0 = self.bodies@;
        let body_count = self.bodies.len();
        let mut contacts: Vec<(usize, usize, CollisionInfo)> = Vec::new();

        let mut i: usize = 0;
        while i < body_count
            invariant
                i <= body_count,
                self.bodies@ == bodies0,
                contacts_view(contacts@) + spec_scan(bodies0, i as int, i as int + 1)
                    == spec_contacts(bodies0),
                forall|m: int|
                    0 <= m < contacts@.len() ==> 0 <= #[trigger] contacts@[m].0 < contacts@[m].1
                        < body_count,
            decreases body_count - i,
        {
            let mut j: usize = i + 1;
            while j < body_count
                invariant
                    i < body_count,
                    i + 1 <= j <= body_count,
                    self.bodies@ == bodies0,
                    contacts_view(contacts@) + spec_scan(bodies0, i as int, j as int)
                        == spec_contacts(bodies0),
                    forall|m: int|
                        0 <= m < contacts@.len() ==> 0 <= #[trigger] contacts@[m].0
                            < contacts@[m].1 < body_count,
                decreases body_count - j,
            {
                let info = pair_contact(&self.bodies[i], &self.bodies[j]);
                let ghost view_before = contacts_view(contacts@);
                if info.is_colliding && (self.bodies[i].as_rigid_body().is_some()
                    || self.bodies[j].as_rigid_body().is_some()) {
                    contacts.push((i, j, info));
                    proof {
                        assert(contacts_view(contacts@) =~= view_before.push(
                            (i as int, j as int, info),
                        ));
                        assert(spec_scan(bodies0, i as int, j as int) == seq![
                            (i as int, j as int, info),
                        ] + spec_scan(bodies0, i as int, j as int + 1));
                        assert(contacts_view(contacts@) + spec_scan(bodies0, i as int, j as int + 1)
                            =~= view_before + spec_scan(bodies0, i as int, j as int));
                    }
                } else {
                    proof {
                        assert(!spec_should_record(bodies0[i as int], bodies0[j as int]));
                        assert(spec_scan(bodies0, i as int, j as int) == spec_scan(
                            bodies0,
                            i as int,
                            j as int + 1,
                        ));
                    }
                }
                j += 1;
            }
            proof {
                assert(spec_scan(bodies0, i as int, body_count as int) == spec_scan(
                    bodies0,
                    i as int + 1,
                    i as int + 2,
                ));
            }
            i += 1;
        }
        proof {
            assert(spec_scan(bodies0, body_count as int, body_count as int + 1)
                == Seq::<(int, int, CollisionInfo)>::empty());
            assert(contacts_view(contacts@) + Seq::<(int, int, CollisionInfo)>::empty()
                =~= contacts_view(contacts@));
            assert(contacts_view(contacts@) == spec_contacts(bodies0));
        }

        let ghost target = spec_resolve_list(
            bodies0,
            spec_contacts(bodies0),
            self.restitution,
            self.fixed_timestep,
        );
        proof {
            assert(contacts_view(contacts@).skip(0) =~= contacts_view(contacts@));
        }
        let n_contacts = contacts.len();
        let mut idx: usize = 0;
        while idx < n_contacts
            invariant
                idx <= n_contacts,
                self.bodies@.len() == bodies0.len(),
                spec_resolve_list(
                    self.bodies@,
                    contacts_view(contacts@).skip(idx as int),
                    old(self).restitution,
                    old(self).fixed_timestep,
                ) == target,
                self.accumulator == old(self).accumulator,
                self.fixed_timestep == old(self).fixed_timestep,
                self.gravity == old(self).gravity,
                self.restitution == old(self).restitution,
                self.friction == old(self).friction,
            decreases n_contacts - idx,
        {
            let c = contacts[idx];
            let ghost before = self.bodies@;
            let b1 = self.bodies[c.0];
            let b2 = self.bodies[c.1];
            let pair = resolve_contact(b1, b2, c.2, self.restitution, self.fixed_timestep);
            self.bodies[c.0] = pair.0;
            self.bodies[c.1] = pair.1;
            proof {
                let view = contacts_view(contacts@);
                assert(view.skip(idx as int)[0] == (c.0 as int, c.1 as int, c.2));
                assert(view.skip(idx as int).drop_first() =~= view.skip(idx as int + 1));
                assert(self.bodies@ == spec_apply_contact(
                    before,
                    c.0 as int,
                    c.1 as int,
                    c.2,
                    old(self).restitution,
                    old(self).fixed_timestep,
                ));
            }
            idx += 1;
        }
        proof {
            assert(contacts_view(contacts@).skip(n_contacts as int) =~= Seq::<(
                int,
                int,
                CollisionInfo,
            )>::empty());
        }
    }

    /// Append a body; its index (= insertion order) is how callers read its
    /// state back, so the list order is part of the contract.
    pub fn add_body(&mut self, body: Body)
        ensures
            final(self).bodies@ == old(self).bodies@.push(body),
            final(self).accumulator == old(self).accumulator,
            final(self).fixed_timestep == old(self).fixed_timestep,
            final(self).gravity == old(self).gravity,
            final(self).restitution == old(self).restitution,
            final(self).friction == old(self).friction,
    {
        self.bodies.push(body);
    }
}

/// The detection loop's collected pairs, as mathematical indices.
spec fn contacts_view(s: Seq<(usize, usize, CollisionInfo)>) -> Seq<(int, int, CollisionInfo)> {
    s.map_values(|t: (usize, usize, CollisionInfo)| (t.0 as int, t.1 as int, t.2))
}

/// Dispatch one ordered body pair to its narrow-phase test.
fn pair_contact(b1: &Body, b2: &Body) -> (r: CollisionInfo)
    ensures
        r == spec_pair_contact(*b1, *b2),
{
    match (*b1.shape(), *b2.shape()) {
        (
            CollisionShape::Sphere { radius: r1 },
            CollisionShape::Sphere { radius: r2 },
        ) => sphere_vs_sphere(*b1.position(), r1, *b2.position(), r2),
        (
            CollisionShape::Sphere { radius },
            CollisionShape::Plane { normal, distance },
        ) => sphere_vs_plane(*b1.position(), radius, normal, distance),
        (
            CollisionShape::Plane { normal, distance },
            CollisionShape::Sphere { radius },
        ) => {
            let mut info = sphere_vs_plane(*b2.position(), radius, normal, distance);
            if info.is_colliding {
                info.normal = Vec3::zero() - info.normal;
            }
            info
        },
        (
            CollisionShape::Sphere { radius },
            CollisionShape::AABB { min, max },
        ) => sphere_vs_aabb(*b1.position(), radius, min, max),
        (
            CollisionShape::AABB { min, max },
            CollisionShape::Sphere { radius },
        ) => {
            let mut info = sphere_vs_aabb(*b2.position(), radius, min, max);
            if info.is_colliding {
                info.normal = Vec3::zero() - info.normal;
            }
            info
        },
        (
            CollisionShape::AABB { min: min1, max: max1 },
            CollisionShape::AABB { min: min2, max: max2 },
        ) => aabb_vs_aabb(min1, max1, min2, max2),
        _ => CollisionInfo::none(),
    }
}

fn body_is_rigid(b: &Body) -> (r: bool)
    ensures
        r == (*b is Rigid),
{
    match b {
        Body::Rigid(_) => true,
        Body::Static(_) => false,
    }
}

fn body_is_static(b: &Body) -> (r: bool)
    ensures
        r == (*b is Static),
{
    match b {
        Body::Static(_) => true,
        Body::Rigid(_) => false,
    }
}

fn velocity_of(b: &Body) -> (r: Vec3)
    ensures
        r == spec_velocity(*b),
{
    match b {
        Body::Rigid(rb) => rb.velocity,
        Body::Static(_) => Vec3::zero(),
    }
}

fn inv_mass_of(b: &Body) -> (r: i64)
    ensures
        r == spec_inv_mass(*b),
{
    match b {
        Body::Rigid(rb) => fix_div(SCALE, rb.mass),
        Body::Static(_) => 0,
    }
}

fn mass_of(b: &Body) -> (r: i64)
    ensures
        r == spec_mass(*b),
{
    match b {
        Body::Rigid(rb) => rb.mass,
        Body::Static(_) => 0,
    }
}

fn with_pos_vel(b: Body, p: Vec3, v: Vec3) -> (r: Body)
    ensures
        r == spec_with_pos_vel(b, p, v),
{
    match b {
        Body::Rigid(rb) => Body::Rigid(RigidBody { position: p, velocity: v, ..rb }),
        Body::Static(_) => b,
    }
}

/// Positional correction of one contact pair (see
/// [`spec_contact_positions`]).
fn contact_positions(b1: &Body, b2: &Body, info: CollisionInfo) -> (r: (Vec3, Vec3))
    ensures
        r == spec_contact_positions(*b1, *b2, info),
{
    let pos1 = *b1.position();
    let pos2 = *b2.position();
    let separation = info.normal * info.penetration_depth;
    let mass_sum = sat_add(mass_of(b1), mass_of(b2));
    let p1 = if body_is_rigid(b1) {
        if body_is_static(b2) {
            pos1 - separation
        } else {
            pos1 - separation * fix_div(mass_of(b2), mass_sum)
        }
    } else {
        pos1
    };
    let p2 = if body_is_rigid(b2) {
        if body_is_static(b1) {
            pos2 + separation
        } else {
            pos2 + separation * fix_div(mass_of(b1), mass_sum)
        }
    } else {
        pos2
    };
    (p1, p2)
}

/// Impulse resolution of one contact pair (see
/// [`spec_contact_velocities`]).
fn contact_velocities(b1: &Body, b2: &Body, info: CollisionInfo, e: i64, ts: i64) -> (r: (
    Vec3,
    Vec3,
))
    ensures
        r == spec_contact_velocities(*b1, *b2, info, e, ts),
{
    let vel1 = velocity_of(b1);
    let vel2 = velocity_of(b2);
    let van = (vel1 - vel2).dot(&info.normal);
    if van < 0 {
        (vel1, vel2)
    } else {
        let inv1 = inv_mass_of(b1);
        let inv2 = inv_mass_of(b2);
        let denom = sat_add(inv1, inv2);
        let bias = fix_div(fix_mul(PENETRATION_BIAS, info.penetration_depth), ts);
        let imp_n = fix_div(sat_sub(sat_sub(0, fix_mul(sat_add(SCALE, e), van)), bias), denom);
        let normal_impulse = info.normal * imp_n;
        let v1 = if body_is_rigid(b1) {
            vel1 + normal_impulse * inv1
        } else {
            vel1
        };
        let v2 = if body_is_rigid(b2) {
            vel2 - normal_impulse * inv2
        } else {
            vel2
        };
        let combined = fix_mul(sat_add(b1.friction(), b2.friction()), HALF);
        let rv = v1 - v2;
        let tangent_dir = rv - info.normal * rv.dot(&info.normal);
        let tmag = tangent_dir.magnitude();
        if tmag > FRICTION_EPSILON {
            let unit_tangent = tangent_dir.normalize();
            let imp_t = fix_div(sat_sub(0, rv.dot(&unit_tangent)), denom);
            let limit = fix_mul(abs_sat(imp_n), combined);
            let fric = clamp_scalar(imp_t, sat_sub(0, limit), limit);
            let fi = unit_tangent * fric;
            (
                if body_is_rigid(b1) {
                    v1 + fi * inv1
                } else {
                    v1
                },
                if body_is_rigid(b2) {
                    v2 - fi * inv2
                } else {
                    v2
                },
            )
        } else {
            (v1, v2)
        }
    }
}

/// Resolve one recorded contact: corrected positions, then impulses.
fn resolve_contact(b1: Body, b2: Body, info: CollisionInfo, e: i64, ts: i64) -> (r: (Body, Body))
    ensures
        r.0 == spec_resolve_bodies(b1, b2, info, e, ts).0,
        r.1 == spec_resolve_bodies(b1, b2, info, e, ts).1,
{
    let positions = contact_positions(&b1, &b2, info);
    let velocities = contact_velocities(&b1, &b2, info, e, ts);
    (with_pos_vel(b1, positions.0, velocities.0), with_pos_vel(b2, positions.1, velocities.1))
}

} // verus!
