//! The body model: immovable bodies and dynamic (rigid) bodies, unified
//! behind one tagged union.
//!
//! An immovable body is position + shape + friction and is never integrated.
//! A dynamic body adds velocity, acceleration, mass, and a per-tick force
//! accumulator; it advances by semi-implicit (symplectic) Euler: velocity is
//! updated from the accumulated force first, and the *already-updated*
//! velocity then advances the position within the same step.

use crate::collision::CollisionShape;
use crate::fixed::{fix_div, spec_div, SCALE};
use crate::vector::{spec_vadd, spec_vscale, Vec3};
use vstd::prelude::*;

verus! {

/// The friction coefficient bodies are created with (0.25).
pub const DEFAULT_FRICTION: i64 = 2_500_000;

/// The sphere radius bodies are created with (0.5).
pub const DEFAULT_RADIUS: i64 = 5_000_000;

/// A body that never moves: the world reads it but never integrates it.
#[derive(Clone, Copy, Debug)]
pub struct StaticBody {
    pub position: Vec3,
    pub shape: CollisionShape,
    pub friction: i64,
}

impl StaticBody {
    /// An immovable body at `position` with the given shape and the default
    /// friction.
    pub fn new(position: Vec3, shape: CollisionShape) -> (r: StaticBody)
        ensures
            r == (StaticBody { position, shape, friction: DEFAULT_FRICTION }),
    {
        StaticBody { position, shape, friction: DEFAULT_FRICTION }
    }
}

/// A dynamic body: integrated every fixed tick, pushed around by contacts.
///
/// The force accumulator is working state of the tick loop: forces gathered
/// by [`RigidBody::apply_force`] are consumed (and the field zeroed) by the
/// next [`RigidBody::update`].
#[derive(Clone, Copy, Debug)]
pub struct RigidBody {
    pub position: Vec3,
    pub velocity: Vec3,
    pub acceleration: Vec3,
    pub mass: i64,
    pub shape: CollisionShape,
    pub friction: i64,
    pub force_accumulator: Vec3,
}

/// `rb` with `force` added into its accumulator.
pub open spec fn spec_apply_force(rb: RigidBody, force: Vec3) -> RigidBody {
    RigidBody { force_accumulator: spec_vadd(rb.force_accumulator, force), ..rb }
}

/// `rb` with an emptied force accumulator.
pub open spec fn spec_clear_forces(rb: RigidBody) -> RigidBody {
    RigidBody { force_accumulator: Vec3 { x: 0, y: 0, z: 0 }, ..rb }
}

/// One velocity step: when the mass is positive, the acceleration becomes
/// the accumulated force times the reciprocal mass (a non-positive mass
/// disables the acceleration computation, guarding the division); the
/// velocity then advances by the acceleration over `dt`.
pub open spec fn spec_integrate_velocity(rb: RigidBody, dt: i64) -> RigidBody {
    let acceleration = if rb.mass > 0 {
        spec_vscale(rb.force_accumulator, spec_div(SCALE, rb.mass))
    } else {
        rb.acceleration
    };
    RigidBody {
        acceleration,
        velocity: spec_vadd(rb.velocity, spec_vscale(acceleration, dt)),
        ..rb
    }
}

/// One position step: the position advances by the current velocity over
/// `dt`.
pub open spec fn spec_integrate_position(rb: RigidBody, dt: i64) -> RigidBody {
    RigidBody { position: spec_vadd(rb.position, spec_vscale(rb.velocity, dt)), ..rb }
}

/// One whole integration step: velocity, then position (semi-implicit
/// Euler), then the force accumulator is cleared.
pub open spec fn spec_rigid_update(rb: RigidBody, dt: i64) -> RigidBody {
    spec_clear_forces(spec_integrate_position(spec_integrate_velocity(rb, dt), dt))
}

impl RigidBody {
    /// A dynamic body at `position` with unit mass, a default sphere shape,
    /// default friction, and everything else zero.
    pub fn new(position: Vec3) -> (r: RigidBody)
        ensures
            r == (RigidBody {
                position,
                velocity: Vec3 { x: 0, y: 0, z: 0 },
                acceleration: Vec3 { x: 0, y: 0, z: 0 },
                mass: SCALE,
                shape: CollisionShape::Sphere { radius: DEFAULT_RADIUS },
                friction: DEFAULT_FRICTION,
                force_accumulator: Vec3 { x: 0, y: 0, z: 0 },
            }),
    {
        RigidBody {
            position,
            velocity: Vec3::zero(),
            acceleration: Vec3::zero(),
            mass: SCALE,
            shape: CollisionShape::Sphere { radius: DEFAULT_RADIUS },
            friction: DEFAULT_FRICTION,
            force_accumulator: Vec3::zero(),
        }
    }

    /// Like [`RigidBody::new`], with the given mass.
    pub fn with_mass(position: Vec3, mass: i64) -> (r: RigidBody)
        ensures
            r == (RigidBody {
                position,
                velocity: Vec3 { x: 0, y: 0, z: 0 },
                acceleration: Vec3 { x: 0, y: 0, z: 0 },
                mass,
                shape: CollisionShape::Sphere { radius: DEFAULT_RADIUS },
                friction: DEFAULT_FRICTION,
                force_accumulator: Vec3 { x: 0, y: 0, z: 0 },
            }),
    {
        RigidBody {
            position,
            velocity: Vec3::zero(),
            acceleration: Vec3::zero(),
            mass,
            shape: CollisionShape::Sphere { radius: DEFAULT_RADIUS },
            friction: DEFAULT_FRICTION,
            force_accumulator: Vec3::zero(),
        }
    }

    /// Like [`RigidBody::new`], with the given mass and shape.
    pub fn with_shape(position: Vec3, mass: i64, shape: CollisionShape) -> (r: RigidBody)
        ensures
            r == (RigidBody {
                position,
                velocity: Vec3 { x: 0, y: 0, z: 0 },
                acceleration: Vec3 { x: 0, y: 0, z: 0 },
                mass,
                shape,
                friction: DEFAULT_FRICTION,
                force_accumulator: Vec3 { x: 0, y: 0, z: 0 },
            }),
    {
        RigidBody {
            position,
            velocity: Vec3::zero(),
            acceleration: Vec3::zero(),
            mass,
            shape,
            friction: DEFAULT_FRICTION,
            force_accumulator: Vec3::zero(),
        }
    }

    /// Accumulate `force` for the next integration step; may be called any
    /// number of times before one step, and the contributions add.
    pub fn apply_force(&mut self, force: Vec3)
        ensures
            *final(self) == spec_apply_force(*old(self), force),
    {
        self.force_accumulator = self.force_accumulator + force;
    }

    /// Empty the force accumulator.
    pub fn clear_forces(&mut self)
        ensures
            *final(self) == spec_clear_forces(*old(self)),
    {
        self.force_accumulator = Vec3::zero();
    }

    /// Advance the velocity over `dt` (see [`spec_integrate_velocity`]).
    pub fn integrate_velocity(&mut self, dt: i64)
        ensures
            *final(self) == spec_integrate_velocity(*old(self), dt),
    {
        if self.mass > 0 {
            let inv_mass = fix_div(SCALE, self.mass);
            self.acceleration = self.force_accumulator * inv_mass;
        }
        self.velocity = self.velocity + self.acceleration * dt;
    }

    /// Advance the position over `dt` by the current velocity.
    pub fn integrate_position(&mut self, dt: i64)
        ensures
            *final(self) == spec_integrate_position(*old(self), dt),
    {
        self.position = self.position + self.velocity * dt;
    }

    /// One whole integration step (see [`spec_rigid_update`]).
    pub fn update(&mut self, dt: i64)
        ensures
            *final(self) == spec_rigid_update(*old(self), dt),
    {
        self.integrate_velocity(dt);
        self.integrate_position(dt);
        self.clear_forces();
    }
}

/// A body is either dynamic or immovable.
#[derive(Clone, Copy, Debug)]
pub enum Body {
    Rigid(RigidBody),
    Static(StaticBody),
}

/// The position of a body of either kind.
pub open spec fn spec_position(b: Body) -> Vec3 {
    match b {
        Body::Rigid(rb) => rb.position,
        Body::Static(sb) => sb.position,
    }
}

/// The shape of a body of either kind.
pub open spec fn spec_shape(b: Body) -> CollisionShape {
    match b {
        Body::Rigid(rb) => rb.shape,
        Body::Static(sb) => sb.shape,
    }
}

/// The friction coefficient of a body of either kind.
pub open spec fn spec_friction(b: Body) -> i64 {
    match b {
        Body::Rigid(rb) => rb.friction,
        Body::Static(sb) => sb.friction,
    }
}

/// The velocity of a body; an immovable body never moves.
pub open spec fn spec_velocity(b: Body) -> Vec3 {
    match b {
        Body::Rigid(rb) => rb.velocity,
        Body::Static(_) => Vec3 { x: 0, y: 0, z: 0 },
    }
}

impl Body {
    /// The mutable dynamic view of this body, if it is dynamic.
    pub fn as_rigid_body_mut(&mut self) -> (r: Option<&mut RigidBody>)
        ensures
            (r is Some) == (*old(self) is Rigid),
            *old(self) is Static ==> *final(self) == *old(self),
            r matches Some(b) ==> *old(self) matches Body::Rigid(rb) && *b == rb && *final(self)
                == Body::Rigid(*final(b)),
    {
        match self {
            Body::Rigid(body) => Some(body),
            Body::Static(_) => None,
        }
    }

    /// The mutable immovable view of this body, if it is immovable.
    pub fn as_static_body_mut(&mut self) -> (r: Option<&mut StaticBody>)
        ensures
            (r is Some) == (*old(self) is Static),
            *old(self) is Rigid ==> *final(self) == *old(self),
            r matches Some(b) ==> *old(self) matches Body::Static(sb) && *b == sb && *final(self)
                == Body::Static(*final(b)),
    {
        match self {
            Body::Static(body) => Some(body),
            Body::Rigid(_) => None,
        }
    }

    /// The dynamic view of this body, if it is dynamic.
    pub fn as_rigid_body(&self) -> (r: Option<&RigidBody>)
        ensures
            (r is Some) == (*self is Rigid),
            r matches Some(b) ==> *self matches Body::Rigid(rb) && *b == rb,
    {
        match self {
            Body::Rigid(body) => Some(body),
            Body::Static(_) => None,
        }
    }

    /// The immovable view of this body, if it is immovable.
    pub fn as_static_body(&self) -> (r: Option<&StaticBody>)
        ensures
            (r is Some) == (*self is Static),
            r matches Some(b) ==> *self matches Body::Static(sb) && *b == sb,
    {
        match self {
            Body::Static(body) => Some(body),
            Body::Rigid(_) => None,
        }
    }

    /// The position, independent of kind.
    pub fn position(&self) -> (r: &Vec3)
        ensures
            *r == spec_position(*self),
    {
        match self {
            Body::Rigid(body) => &body.position,
            Body::Static(body) => &body.position,
        }
    }

    /// The shape, independent of kind.
    pub fn shape(&self) -> (r: &CollisionShape)
        ensures
            *r == spec_shape(*self),
    {
        match self {
            Body::Rigid(body) => &body.shape,
            Body::Static(body) => &body.shape,
        }
    }

    /// The friction coefficient, independent of kind.
    pub fn friction(&self) -> (r: i64)
        ensures
            r == spec_friction(*self),
    {
        match self {
            Body::Rigid(body) => body.friction,
            Body::Static(body) => body.friction,
        }
    }
}

} // verus!
