use physics::{Body, PhysicsWorld, RigidBody, Vec3};

/// One fixed-point unit is 1e-7, so 1.0 is ten million units.
const UNIT: f64 = 10_000_000.0;

/// A real value on the fixed-point grid (nearest unit).
fn fix(x: f64) -> i64 {
    (x * UNIT).round() as i64
}

/// A time span on the fixed-point grid, rounded down so banked time never
/// exceeds real time.
fn fix_dt(x: f64) -> i64 {
    (x * UNIT).floor() as i64
}

/// A fixed-point scalar back as a real value.
fn unfix(v: i64) -> f64 {
    v as f64 / UNIT
}

fn rigid(world: &PhysicsWorld, i: usize) -> &RigidBody {
    world.bodies[i].as_rigid_body().unwrap()
}

#[test]
fn test_physics_world_creation() {
    let world = PhysicsWorld::new(fix_dt(1.0 / 60.0));
    assert_eq!(world.bodies.len(), 0);
}

#[test]
fn test_physics_world_add_body() {
    let mut world = PhysicsWorld::new(fix_dt(1.0 / 60.0));
    let body = RigidBody::new(Vec3::new(fix(1.0), fix(2.0), fix(3.0)));

    world.add_body(Body::Rigid(body));
    assert_eq!(world.bodies.len(), 1);
    assert_eq!(rigid(&world, 0).position.x, fix(1.0));
}

#[test]
fn test_physics_world_add_multiple_bodies() {
    let mut world = PhysicsWorld::new(fix_dt(1.0 / 60.0));

    for i in 0..10 {
        let body = RigidBody::new(Vec3::new(fix(i as f64), fix(0.0), fix(0.0)));
        world.add_body(Body::Rigid(body));
    }

    assert_eq!(world.bodies.len(), 10);
}

#[test]
fn test_physics_world_fixed_timestep_update() {
    let mut world = PhysicsWorld::new(fix_dt(1.0 / 60.0));
    let mut body = RigidBody::new(Vec3::zero());
    body.velocity = Vec3::new(fix(1.0), fix(0.0), fix(0.0));
    world.add_body(Body::Rigid(body));

    let dt = fix_dt(1.0 / 60.0);
    world.update(dt);

    assert!((unfix(rigid(&world, 0).position.x) - 1.0 / 60.0).abs() < 0.0001);
}

#[test]
fn test_physics_world_accumulator() {
    let mut world = PhysicsWorld::new(fix_dt(1.0 / 60.0));
    let mut body = RigidBody::new(Vec3::zero());
    body.velocity = Vec3::new(fix(60.0), fix(0.0), fix(0.0));
    world.add_body(Body::Rigid(body));

    let small_dt = fix_dt(1.0 / 60.0) / 2;
    world.update(small_dt);

    assert_eq!(rigid(&world, 0).position.x, 0);

    world.update(small_dt);

    assert!((unfix(rigid(&world, 0).position.x) - 1.0).abs() < 0.0001);
}

#[test]
fn test_physics_world_multiple_fixed_steps_per_frame() {
    let mut world = PhysicsWorld::new(fix_dt(1.0 / 60.0));
    let mut body = RigidBody::new(Vec3::zero());
    body.velocity = Vec3::new(fix(60.0), fix(0.0), fix(0.0));
    world.add_body(Body::Rigid(body));

    let large_dt = fix_dt(3.0 / 60.0);
    world.update(large_dt);

    assert!((unfix(rigid(&world, 0).position.x) - 3.0).abs() < 0.0001);
}

#[test]
fn test_physics_world_determinism() {
    let mut world1 = PhysicsWorld::new(fix_dt(1.0 / 60.0));
    let mut body1 = RigidBody::new(Vec3::zero());
    body1.velocity = Vec3::new(fix(1.0), fix(2.0), fix(3.0));
    world1.add_body(Body::Rigid(body1));

    let mut world2 = PhysicsWorld::new(fix_dt(1.0 / 60.0));
    let mut body2 = RigidBody::new(Vec3::zero());
    body2.velocity = Vec3::new(fix(1.0), fix(2.0), fix(3.0));
    world2.add_body(Body::Rigid(body2));

    for _ in 0..100 {
        world1.update(fix_dt(1.0 / 60.0));
        world2.update(fix_dt(1.0 / 60.0));
    }

    assert_eq!(rigid(&world1, 0).position.x, rigid(&world2, 0).position.x);
    assert_eq!(rigid(&world1, 0).position.y, rigid(&world2, 0).position.y);
    assert_eq!(rigid(&world1, 0).position.z, rigid(&world2, 0).position.z);
}

#[test]
fn test_physics_world_variable_timestep_stability() {
    let mut world = PhysicsWorld::new(fix_dt(1.0 / 60.0));
    let mut body = RigidBody::new(Vec3::zero());
    body.velocity = Vec3::new(fix(1.0), fix(0.0), fix(0.0));
    world.add_body(Body::Rigid(body));

    world.update(fix_dt(1.0 / 30.0));
    world.update(fix_dt(1.0 / 120.0));
    world.update(fix_dt(1.0 / 45.0));
    world.update(fix_dt(1.0 / 90.0));

    let total_time = 1.0 / 30.0 + 1.0 / 120.0 + 1.0 / 45.0 + 1.0 / 90.0;
    let expected_position = total_time;

    assert!((unfix(rigid(&world, 0).position.x) - expected_position).abs() < 0.01);
}

#[test]
fn test_physics_world_zero_delta_time() {
    let mut world = PhysicsWorld::new(fix_dt(1.0 / 60.0));
    let mut body = RigidBody::new(Vec3::zero());
    body.velocity = Vec3::new(fix(1.0), fix(0.0), fix(0.0));
    world.add_body(Body::Rigid(body));

    world.update(0);

    assert_eq!(rigid(&world, 0).position.x, 0);
}

#[test]
fn test_physics_world_all_bodies_update() {
    let mut world = PhysicsWorld::new(fix_dt(1.0 / 60.0));

    // Space bodies apart to avoid collisions (default sphere radius is 0.5, so use spacing > 1.0)
    for i in 0..5 {
        let mut body = RigidBody::new(Vec3::new(fix(i as f64 * 2.0), fix(0.0), fix(0.0)));
        body.velocity = Vec3::new(fix(1.0), fix(0.0), fix(0.0));
        world.add_body(Body::Rigid(body));
    }

    world.update(fix_dt(1.0));

    for (i, body) in world.bodies.iter().enumerate() {
        let expected_x = i as f64 * 2.0 + 1.0; // initial + velocity * time
        assert!((unfix(body.as_rigid_body().unwrap().position.x) - expected_x).abs() < 0.0001);
    }
}

// Gravity and Force Tests
#[test]
fn test_physics_world_default_gravity() {
    let world = PhysicsWorld::new(fix_dt(1.0 / 60.0));
    assert_eq!(world.gravity, Vec3::new(fix(0.0), fix(-9.8), fix(0.0)));
}

#[test]
fn test_physics_world_custom_gravity() {
    let custom_gravity = Vec3::new(fix(0.0), fix(-20.0), fix(0.0));
    let world = PhysicsWorld::with_gravity(fix_dt(1.0 / 60.0), custom_gravity);
    assert_eq!(world.gravity, custom_gravity);
}

#[test]
fn test_physics_world_applies_gravity() {
    let mut world = PhysicsWorld::new(fix_dt(1.0 / 60.0));
    let body = RigidBody::with_mass(Vec3::new(fix(0.0), fix(100.0), fix(0.0)), fix(2.0));
    world.add_body(Body::Rigid(body));

    // Update for 1 second
    world.update(fix_dt(1.0));

    // Gravity force = mass * gravity = 2.0 * -9.8 = -19.6
    // Acceleration = force / mass = -19.6 / 2.0 = -9.8
    // Semi-implicit Euler: v = -9.8, position = 100 - 0.5*9.8*1^2 ≈ 95.1
    assert!((unfix(rigid(&world, 0).velocity.y) - (-9.8)).abs() < 0.01);
    assert!((unfix(rigid(&world, 0).position.y) - 95.1).abs() < 0.1);
}

#[test]
fn test_physics_world_gravity_affects_all_bodies() {
    let mut world = PhysicsWorld::new(fix_dt(1.0 / 60.0));

    // Add bodies with different masses
    world.add_body(Body::Rigid(RigidBody::with_mass(
        Vec3::new(fix(0.0), fix(100.0), fix(0.0)),
        fix(1.0),
    )));
    world.add_body(Body::Rigid(RigidBody::with_mass(
        Vec3::new(fix(0.0), fix(100.0), fix(0.0)),
        fix(5.0),
    )));
    world.add_body(Body::Rigid(RigidBody::with_mass(
        Vec3::new(fix(0.0), fix(100.0), fix(0.0)),
        fix(10.0),
    )));

    world.update(fix_dt(1.0));

    // All bodies should fall at the same rate (a = g = -9.8) regardless of mass
    for body in &world.bodies {
        assert!((unfix(body.as_rigid_body().unwrap().acceleration.y) - (-9.8)).abs() < 0.0001);
        assert!((unfix(body.as_rigid_body().unwrap().velocity.y) - (-9.8)).abs() < 0.01);
    }
}

#[test]
fn test_physics_world_no_gravity() {
    let mut world = PhysicsWorld::with_gravity(fix_dt(1.0 / 60.0), Vec3::zero());
    let body = RigidBody::new(Vec3::new(fix(0.0), fix(100.0), fix(0.0)));
    world.add_body(Body::Rigid(body));

    world.update(fix_dt(1.0));

    // No gravity, body should stay at same height
    assert_eq!(rigid(&world, 0).position.y, fix(100.0));
    assert_eq!(rigid(&world, 0).velocity.y, 0);
}

#[test]
fn test_physics_world_falling_simulation() {
    let mut world = PhysicsWorld::new(fix_dt(0.01)); // 100 Hz
    let body = RigidBody::with_mass(Vec3::new(fix(0.0), fix(100.0), fix(0.0)), fix(1.0));
    world.add_body(Body::Rigid(body));

    // Simulate falling for 3 seconds
    for _ in 0..300 {
        world.update(fix_dt(0.01));
    }

    // After 3 seconds of free fall from 100m with g = -9.8:
    // v = gt = -9.8 * 3 = -29.4
    // y = y0 + 0.5*g*t^2 = 100 + 0.5*(-9.8)*9 = 100 - 44.1 = 55.9
    assert!((unfix(rigid(&world, 0).velocity.y) - (-29.4)).abs() < 0.5);
    assert!((unfix(rigid(&world, 0).position.y) - 55.9).abs() < 2.0);
}

#[test]
fn test_physics_world_gravity_with_initial_velocity() {
    let mut world = PhysicsWorld::new(fix_dt(1.0 / 60.0));
    let mut body = RigidBody::new(Vec3::zero());
    body.velocity = Vec3::new(fix(0.0), fix(50.0), fix(0.0)); // Throw upward
    world.add_body(Body::Rigid(body));

    world.update(fix_dt(1.0));

    // After 1 second: v = v0 + at = 50 + (-9.8)*1 = 40.2
    assert!((unfix(rigid(&world, 0).velocity.y) - 40.2).abs() < 0.1);
}
