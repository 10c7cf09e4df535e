//! A deterministic 3D rigid-body simulation core.
//!
//! Bodies with mass and shape fall under gravity, collide, and exchange
//! impulses, advanced on a fixed simulation tick decoupled from the host's
//! variable frame rate.  All quantities are fixed-point scalars (counts of
//! ten-millionths, see [`fixed::SCALE`]), so every tick is an exact integer
//! computation: the narrow-phase contact geometry, the force and
//! integration model, and the fixed-timestep resolution loop are all
//! specified and verified down to the arithmetic, and the global guarantees
//! — determinism, timestep-split invariance, the equivalence principle, the
//! invariance of immovable bodies — are proved in [`laws`].

pub mod body;
pub mod collision;
pub mod fixed;
pub mod laws;
pub mod physics_loop;
pub mod vector;

pub use body::{Body, RigidBody, StaticBody};
pub use collision::{
    aabb_vs_aabb, sphere_vs_aabb, sphere_vs_plane, sphere_vs_sphere, CollisionInfo, CollisionShape,
};
pub use physics_loop::PhysicsWorld;
pub use vector::Vec3;
