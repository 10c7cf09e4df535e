//! The simulation's global guarantees, stated and proved over the spec
//! model that every executable function is pinned to: determinism, the
//! timestep-split invariance of the accumulator loop, the equivalence
//! principle of free fall, and the invariance of immovable bodies.

use crate::body::{Body, RigidBody};
use crate::fixed::{div_trunc, lemma_abs_mul, spec_div, spec_mul, SCALE};
use crate::physics_loop::{
    spec_apply_contact, spec_contacts, spec_integrate_all, spec_integrate_body, spec_pair_contact,
    spec_resolve_list, spec_scan, spec_should_record, spec_tick_count, spec_update_acc,
    spec_world_tick, spec_world_ticks,
};
use crate::vector::{spec_vadd, spec_vscale, Vec3};
use vstd::arithmetic::div_mod::{
    lemma_basic_div, lemma_div_nonincreasing, lemma_div_pos_is_pos, lemma_fundamental_div_mod,
    lemma_fundamental_div_mod_converse_div, lemma_fundamental_div_mod_converse_mod,
    lemma_mod_decreases, lemma_mod_division_less_than_divisor, lemma_mod_multiples_basic,
    lemma_small_mod,
};
use vstd::prelude::*;

verus! {

/// A world model driven through a sequence of update deltas: the body list
/// and the banked accumulator after each call, under fixed gravity,
/// restitution, and timestep.
pub open spec fn spec_run(
    bodies: Seq<Body>,
    acc: i64,
    gravity: Vec3,
    e: i64,
    ts: i64,
    deltas: Seq<i64>,
) -> (Seq<Body>, i64)
    decreases deltas.len(),
{
    if deltas.len() == 0 {
        (bodies, acc)
    } else {
        spec_run(
            spec_world_ticks(bodies, gravity, e, ts, spec_tick_count(acc, deltas[0], ts)),
            spec_update_acc(acc, ts, deltas[0]),
            gravity,
            e,
            ts,
            deltas.drop_first(),
        )
    }
}

/// Determinism: two identically constructed worlds fed the same sequence of
/// update deltas hold equal body states after every call.  The substance is
/// in [`PhysicsWorld::update`]'s contract, which pins its entire outcome to
/// spec functions of the prior state and the delta alone — nothing else (no
/// clock, no randomness) enters; equal starts therefore stay equal forever.
///
/// [`PhysicsWorld::update`]: crate::physics_loop::PhysicsWorld::update
pub proof fn lemma_determinism(
    bodies1: Seq<Body>,
    acc1: i64,
    bodies2: Seq<Body>,
    acc2: i64,
    gravity: Vec3,
    e: i64,
    ts: i64,
    deltas: Seq<i64>,
)
    requires
        bodies1 == bodies2,
        acc1 == acc2,
    ensures
        spec_run(bodies1, acc1, gravity, e, ts, deltas) == spec_run(
            bodies2,
            acc2,
            gravity,
            e,
            ts,
            deltas,
        ),
{
}

/// Running `m` ticks and then `n` more is running `m + n` ticks.
pub proof fn lemma_world_ticks_additive(
    bodies: Seq<Body>,
    gravity: Vec3,
    e: i64,
    ts: i64,
    m: nat,
    n: nat,
)
    ensures
        spec_world_ticks(spec_world_ticks(bodies, gravity, e, ts, m), gravity, e, ts, n)
            == spec_world_ticks(bodies, gravity, e, ts, m + n),
    decreases n,
{
    if n > 0 {
        lemma_world_ticks_additive(bodies, gravity, e, ts, m, (n - 1) as nat);
    }
}

/// Timestep-split invariance: one update of `t1 + t2` and two updates of
/// `t1` then `t2` run the very same sequence of fixed ticks and leave the
/// same banked remainder — the body states agree exactly, collisions and
/// all, because ticks are identical fixed steps however the host slices the
/// frame time.
pub proof fn lemma_timestep_split(
    bodies: Seq<Body>,
    acc: i64,
    gravity: Vec3,
    e: i64,
    ts: i64,
    t1: i64,
    t2: i64,
)
    requires
        ts > 0,
        0 <= acc < ts,
        0 <= t1,
        0 <= t2,
        acc + t1 + t2 <= i64::MAX,
    ensures
        ({
            let acc1 = spec_update_acc(acc, ts, t1);
            let n1 = spec_tick_count(acc, t1, ts);
            let n2 = spec_tick_count(acc1, t2, ts);
            &&& spec_world_ticks(
                spec_world_ticks(bodies, gravity, e, ts, n1),
                gravity,
                e,
                ts,
                n2,
            ) == spec_world_ticks(
                bodies,
                gravity,
                e,
                ts,
                spec_tick_count(acc, (t1 + t2) as i64, ts),
            )
            &&& spec_update_acc(acc1, ts, t2) == spec_update_acc(acc, ts, (t1 + t2) as i64)
        }),
{
    let s = ts as int;
    let total1 = acc + t1;
    let n1 = total1 / s;
    let r1 = total1 % s;
    lemma_fundamental_div_mod(total1, s);
    lemma_mod_division_less_than_divisor(total1, s);
    lemma_div_pos_is_pos(total1, s);
    let total2 = r1 + t2;
    let n2 = total2 / s;
    let r2 = total2 % s;
    lemma_fundamental_div_mod(total2, s);
    lemma_mod_division_less_than_divisor(total2, s);
    lemma_div_pos_is_pos(total2, s);
    let total12 = acc + t1 + t2;
    assert(s * (n1 + n2) == s * n1 + s * n2) by (nonlinear_arith);
    assert(total12 == (n1 + n2) * s + r2) by (nonlinear_arith)
        requires
            total1 == s * n1 + r1,
            total2 == s * n2 + r2,
            total2 == r1 + t2,
            total12 == total1 + t2,
    ;
    lemma_fundamental_div_mod_converse_div(total12, s, n1 + n2, r2);
    lemma_fundamental_div_mod_converse_mod(total12, s, n1 + n2, r2);
    lemma_world_ticks_additive(bodies, gravity, e, ts, n1 as nat, n2 as nat);
}

/// The total simulation time a sequence of update deltas carries.
pub open spec fn sum_of(deltas: Seq<i64>) -> int
    decreases deltas.len(),
{
    if deltas.len() == 0 {
        0
    } else {
        deltas[0] + sum_of(deltas.drop_first())
    }
}

proof fn lemma_sum_nonneg(deltas: Seq<i64>)
    requires
        forall|k: int| 0 <= k < deltas.len() ==> 0 <= #[trigger] deltas[k],
    ensures
        0 <= sum_of(deltas),
    decreases deltas.len(),
{
    if deltas.len() > 0 {
        assert(forall|k: int|
            0 <= k < deltas.drop_first().len() ==> 0 <= #[trigger] deltas.drop_first()[k]);
        lemma_sum_nonneg(deltas.drop_first());
    }
}

/// Timestep-split invariance, in full: feeding the world any sequence of
/// nonnegative deltas lands on exactly the state of one update call with
/// their sum — the same ticks run, in the same order, whatever the split.
pub proof fn lemma_any_split(
    bodies: Seq<Body>,
    acc: i64,
    gravity: Vec3,
    e: i64,
    ts: i64,
    deltas: Seq<i64>,
)
    requires
        ts > 0,
        0 <= acc < ts,
        forall|k: int| 0 <= k < deltas.len() ==> 0 <= #[trigger] deltas[k],
        acc + sum_of(deltas) <= i64::MAX,
    ensures
        spec_run(bodies, acc, gravity, e, ts, deltas).0 == spec_world_ticks(
            bodies,
            gravity,
            e,
            ts,
            spec_tick_count(acc, sum_of(deltas) as i64, ts),
        ),
        spec_run(bodies, acc, gravity, e, ts, deltas).1 == spec_update_acc(
            acc,
            ts,
            sum_of(deltas) as i64,
        ),
    decreases deltas.len(),
{
    lemma_sum_nonneg(deltas);
    if deltas.len() == 0 {
        lemma_basic_div(acc as int, ts as int);
        lemma_small_mod(acc as nat, ts as nat);
    } else {
        let d0 = deltas[0];
        let rest = deltas.drop_first();
        assert(forall|k: int| 0 <= k < rest.len() ==> 0 <= #[trigger] rest[k]);
        lemma_sum_nonneg(rest);
        let acc1 = spec_update_acc(acc, ts, d0);
        let b1 = spec_world_ticks(bodies, gravity, e, ts, spec_tick_count(acc, d0, ts));
        lemma_mod_division_less_than_divisor(acc + d0, ts as int);
        lemma_mod_decreases((acc + d0) as nat, ts as nat);
        lemma_any_split(b1, acc1, gravity, e, ts, rest);
        lemma_timestep_split(bodies, acc, gravity, e, ts, d0, sum_of(rest) as i64);
    }
}

/// Truncating division by a positive divisor that divides exactly is plain
/// division.
proof fn lemma_div_trunc_exact(n: int, d: int)
    requires
        d > 0,
        n % d == 0,
    ensures
        div_trunc(n, d) == n / d,
{
    let q = n / d;
    lemma_fundamental_div_mod(n, d);
    assert(n == d * q);
    lemma_abs_mul(d, q);
    assert(vstd::math::abs(n) == d * vstd::math::abs(q));
    assert((d * vstd::math::abs(q)) / d == vstd::math::abs(q)) by {
        vstd::arithmetic::div_mod::lemma_div_multiples_vanish(
            vstd::math::abs(q) as int,
            d,
        );
    }
    assert((n < 0) == (q < 0)) by (nonlinear_arith)
        requires
            n == d * q,
            d > 0,
    ;
}

/// Multiplying by a body's mass and then by the reciprocal of that mass
/// returns the original scalar, whenever the fixed-point grid represents
/// the two intermediate quotients exactly.  (On scalars where it does not —
/// say a gravity of one grid unit and a mass of one half — the cancellation
/// only holds up to rounding, which is why this law carries the
/// divisibility premises.)
pub proof fn lemma_reciprocal_mass_cancels(g_c: i64, m: i64)
    requires
        m > 0,
        (g_c as int * m as int) % (SCALE as int) == 0,
        (SCALE as int * SCALE as int) % (m as int) == 0,
        i64::MIN <= (g_c as int * m as int) / (SCALE as int) <= i64::MAX,
    ensures
        spec_mul(spec_mul(g_c, m), spec_div(SCALE, m)) == g_c,
{
    let s = SCALE as int;
    let p = g_c as int * m as int;
    let q1 = p / s;
    lemma_div_trunc_exact(p, s);
    assert(spec_mul(g_c, m) == q1 as i64);
    let inv = (s * s) / (m as int);
    lemma_div_trunc_exact(s * s, m as int);
    lemma_div_pos_is_pos(s * s, m as int);
    lemma_div_nonincreasing(s * s, m as int);
    assert(spec_div(SCALE, m) == inv as i64);
    lemma_fundamental_div_mod(p, s);
    assert(q1 * s == p) by (nonlinear_arith)
        requires
            p == s * q1 + p % s,
            p % s == 0,
    ;
    lemma_fundamental_div_mod(s * s, m as int);
    assert(inv * m as int == s * s) by (nonlinear_arith)
        requires
            s * s == m as int * inv + (s * s) % (m as int),
            (s * s) % (m as int) == 0,
    ;
    assert((q1 * inv) * (s * m as int) == (g_c as int * s) * (s * m as int)) by (nonlinear_arith)
        requires
            q1 * s == g_c as int * m as int,
            inv * m as int == s * s,
    ;
    assert(q1 * inv == g_c as int * s) by (nonlinear_arith)
        requires
            (q1 * inv) * (s * m as int) == (g_c as int * s) * (s * m as int),
            s > 0,
            m > 0,
    ;
    lemma_mod_multiples_basic(g_c as int, s);
    lemma_div_trunc_exact(g_c as int * s, s);
    assert((g_c as int * s) / s == g_c as int) by {
        vstd::arithmetic::div_mod::lemma_div_multiples_vanish(g_c as int, s);
        assert(g_c as int * s == s * g_c as int) by (nonlinear_arith);
    }
}

/// Whether the fixed-point grid represents gravity-times-mass and the
/// reciprocal mass exactly, per component — the premise under which free
/// fall is exact (it holds for ordinary round values such as unit masses
/// and the default gravity).
pub open spec fn exact_free_fall(gravity: Vec3, m: i64) -> bool {
    &&& m > 0
    &&& (gravity.x as int * m as int) % (SCALE as int) == 0
    &&& (gravity.y as int * m as int) % (SCALE as int) == 0
    &&& (gravity.z as int * m as int) % (SCALE as int) == 0
    &&& (SCALE as int * SCALE as int) % (m as int) == 0
    &&& i64::MIN <= (gravity.x as int * m as int) / (SCALE as int) <= i64::MAX
    &&& i64::MIN <= (gravity.y as int * m as int) / (SCALE as int) <= i64::MAX
    &&& i64::MIN <= (gravity.z as int * m as int) / (SCALE as int) <= i64::MAX
}

/// The closed-form free-fall trajectory: each tick adds gravity-times-dt to
/// the velocity, and the updated velocity advances the position
/// (semi-implicit Euler).  The mass appears nowhere.
pub open spec fn spec_free_fall(p0: Vec3, v0: Vec3, gravity: Vec3, ts: i64, n: nat) -> (Vec3, Vec3)
    decreases n,
{
    if n == 0 {
        (p0, v0)
    } else {
        let prev = spec_free_fall(p0, v0, gravity, ts, (n - 1) as nat);
        let v = spec_vadd(prev.1, spec_vscale(gravity, ts));
        (spec_vadd(prev.0, spec_vscale(v, ts)), v)
    }
}

/// Equivalence principle: a world holding one dynamic body under gravity
/// follows [`spec_free_fall`], a trajectory in which the body's mass does
/// not appear — bodies of any mass fall identically, reaching velocity
/// `gravity * (n * ts)` and the semi-implicit Euler displacement after `n`
/// ticks.  The divisibility premise makes the mass cancellation exact; off
/// it, cancellation holds only to rounding.
pub proof fn lemma_equivalence_principle(rb: RigidBody, gravity: Vec3, e: i64, ts: i64, n: nat)
    requires
        exact_free_fall(gravity, rb.mass),
        rb.force_accumulator == (Vec3 { x: 0, y: 0, z: 0 }),
    ensures
        ({
            let ff = spec_free_fall(rb.position, rb.velocity, gravity, ts, n);
            let after = spec_world_ticks(seq![Body::Rigid(rb)], gravity, e, ts, n);
            &&& after.len() == 1
            &&& after[0] matches Body::Rigid(b) && b.position == ff.0 && b.velocity == ff.1
                && b.mass == rb.mass && b.shape == rb.shape && b.friction == rb.friction
                && b.force_accumulator == rb.force_accumulator
        }),
    decreases n,
{
    if n > 0 {
        lemma_equivalence_principle(rb, gravity, e, ts, (n - 1) as nat);
        let prev = spec_world_ticks(seq![Body::Rigid(rb)], gravity, e, ts, (n - 1) as nat);
        lemma_reciprocal_mass_cancels(gravity.x, rb.mass);
        lemma_reciprocal_mass_cancels(gravity.y, rb.mass);
        lemma_reciprocal_mass_cancels(gravity.z, rb.mass);
        let moved = spec_integrate_all(prev, gravity, ts);
        assert(moved =~= seq![spec_integrate_body(prev[0], gravity, ts)]);
        assert(spec_contacts(moved).len() == 0);
        assert(spec_world_ticks(seq![Body::Rigid(rb)], gravity, e, ts, n) == spec_world_tick(
            prev,
            gravity,
            e,
            ts,
        ));
    }
}

/// Every contact a scan records names two distinct in-range bodies, the
/// first strictly before the second.
pub proof fn lemma_scan_bounds(bodies: Seq<Body>, i: int, j: int)
    requires
        0 <= i < j,
    ensures
        forall|k: int|
            0 <= k < spec_scan(bodies, i, j).len() ==> {
                let c = #[trigger] spec_scan(bodies, i, j)[k];
                i <= c.0 && c.0 < c.1 && c.1 < bodies.len()
            },
    decreases bodies.len() - i, bodies.len() - j,
{
    let s = spec_scan(bodies, i, j);
    if i + 1 >= bodies.len() {
    } else if j >= bodies.len() {
        lemma_scan_bounds(bodies, i + 1, i + 2);
        let rest = spec_scan(bodies, i + 1, i + 2);
        assert forall|k: int| 0 <= k < s.len() implies {
            let c = #[trigger] s[k];
            i <= c.0 && c.0 < c.1 && c.1 < bodies.len()
        } by {
            assert(s[k] == rest[k]);
        }
    } else {
        lemma_scan_bounds(bodies, i, j + 1);
        let rest = spec_scan(bodies, i, j + 1);
        if spec_should_record(bodies[i], bodies[j]) {
            let head = (i, j, spec_pair_contact(bodies[i], bodies[j]));
            assert(s == seq![head] + rest);
            assert forall|k: int| 0 <= k < s.len() implies {
                let c = #[trigger] s[k];
                i <= c.0 && c.0 < c.1 && c.1 < bodies.len()
            } by {
                if k == 0 {
                    assert(s[0] == head);
                } else {
                    assert(s[k] == rest[k - 1]);
                }
            }
        } else {
            assert forall|k: int| 0 <= k < s.len() implies {
                let c = #[trigger] s[k];
                i <= c.0 && c.0 < c.1 && c.1 < bodies.len()
            } by {
                assert(s[k] == rest[k]);
            }
        }
    }
}

/// Resolving any list of in-range contacts never moves an immovable body,
/// nor changes the list's length.
proof fn lemma_resolve_list_preserves_static(
    bodies: Seq<Body>,
    contacts: Seq<(int, int, crate::collision::CollisionInfo)>,
    e: i64,
    ts: i64,
    i: int,
)
    requires
        0 <= i < bodies.len(),
        bodies[i] is Static,
        forall|k: int|
            0 <= k < contacts.len() ==> {
                let c = #[trigger] contacts[k];
                0 <= c.0 < bodies.len() && 0 <= c.1 < bodies.len()
            },
    ensures
        spec_resolve_list(bodies, contacts, e, ts).len() == bodies.len(),
        spec_resolve_list(bodies, contacts, e, ts)[i] == bodies[i],
    decreases contacts.len(),
{
    if contacts.len() > 0 {
        let c = contacts[0];
        let next = spec_apply_contact(bodies, c.0, c.1, c.2, e, ts);
        assert(next.len() == bodies.len());
        assert(next[i] == bodies[i]);
        assert(forall|k: int|
            0 <= k < contacts.drop_first().len() ==> {
                let d = #[trigger] contacts.drop_first()[k];
                0 <= d.0 < next.len() && 0 <= d.1 < next.len()
            });
        lemma_resolve_list_preserves_static(next, contacts.drop_first(), e, ts, i);
    }
}

/// Immovable invariance: an immovable body's state — its position included —
/// is unchanged across arbitrarily many ticks, gravity and collisions
/// notwithstanding; and no tick ever changes how many bodies there are.
pub proof fn lemma_immovable_invariant(
    bodies: Seq<Body>,
    gravity: Vec3,
    e: i64,
    ts: i64,
    n: nat,
    i: int,
)
    requires
        0 <= i < bodies.len(),
        bodies[i] is Static,
    ensures
        spec_world_ticks(bodies, gravity, e, ts, n).len() == bodies.len(),
        spec_world_ticks(bodies, gravity, e, ts, n)[i] == bodies[i],
    decreases n,
{
    if n > 0 {
        lemma_immovable_invariant(bodies, gravity, e, ts, (n - 1) as nat, i);
        let prev = spec_world_ticks(bodies, gravity, e, ts, (n - 1) as nat);
        let moved = spec_integrate_all(prev, gravity, ts);
        assert(moved.len() == prev.len());
        assert(moved[i] == prev[i]);
        lemma_scan_bounds(moved, 0, 1);
        lemma_resolve_list_preserves_static(moved, spec_contacts(moved), e, ts, i);
    }
}

} // verus!
