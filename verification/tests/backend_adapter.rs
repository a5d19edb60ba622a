use physics_bench::backend::{
    configure_gravity, engine_body, engine_collider, plugin, round_collider, spawn_ball,
    spawn_wall, AlphaMode, BallAssets, BodyKind, Collider, EngineBody, Role, Shape, Visual,
    GRAVITY, LENGTH_UNIT, POOL_DEPTH,
};
use physics_bench::geometry::{Color, Size3, Vec3};
use physics_bench::mode::PhysicsMode;
use physics_bench::scope::EntityArena;

const ASSETS: BallAssets = BallAssets { mesh2d: 11, mat2d: 12, mesh3d: 13, mat3d: 14 };

#[test]
fn avian_walls_take_full_extents() {
    let mut arena = EntityArena::new();
    let size = Size3::new(1_920_000, 10_000, 30_000);
    let color = Color::srgb(400, 400, 400);
    let position = Vec3::new(0, -535_000, 0);
    let h0 = spawn_wall(&mut arena, PhysicsMode::Avian2d, position, size, color);
    let h1 = spawn_wall(&mut arena, PhysicsMode::Avian3d, position, size, color);
    assert_eq!((h0, h1), (0, 1));
    let walls = arena.entities();
    assert_eq!(walls[0].collider, Collider::AvianRectangle { width: 1_920_000, height: 10_000 });
    assert_eq!(
        walls[1].collider,
        Collider::AvianCuboid { width: 1_920_000, height: 10_000, depth: 30_000 }
    );
    assert_eq!(walls[0].body, EngineBody::AvianStatic);
    assert_eq!(walls[1].body, EngineBody::AvianStatic);
    assert_eq!(walls[0].owner, PhysicsMode::Avian2d);
    assert_eq!(walls[1].owner, PhysicsMode::Avian3d);
    assert_eq!(walls[0].role, Role::Wall);
    assert_eq!(walls[0].position, position);
}

#[test]
fn rapier_walls_take_half_extents() {
    let mut arena = EntityArena::new();
    let size = Size3::new(1_920_000, 10_000, 30_000);
    let color = Color::srgb(400, 400, 400);
    spawn_wall(&mut arena, PhysicsMode::Rapier2d, Vec3::new(1, 2, 3), size, color);
    spawn_wall(&mut arena, PhysicsMode::Rapier3d, Vec3::new(1, 2, 3), size, color);
    let walls = arena.entities();
    assert_eq!(walls[0].collider, Collider::RapierCuboid2d { half_x: 960_000, half_y: 5_000 });
    assert_eq!(
        walls[1].collider,
        Collider::RapierCuboid3d { half_x: 960_000, half_y: 5_000, half_z: 15_000 }
    );
    assert_eq!(walls[0].body, EngineBody::RapierFixed);
    assert_eq!(walls[1].body, EngineBody::RapierFixed);
}

#[test]
fn odd_extents_are_halved_towards_zero() {
    let shape = Shape::Box { full_extents: Size3::new(7, 1, 0) };
    assert_eq!(
        engine_collider(PhysicsMode::Rapier3d, shape),
        Collider::RapierCuboid3d { half_x: 3, half_y: 0, half_z: 0 }
    );
    assert_eq!(
        engine_collider(PhysicsMode::Avian3d, shape),
        Collider::AvianCuboid { width: 7, height: 1, depth: 0 }
    );
}

#[test]
fn planar_walls_are_sprites_and_volumetric_walls_are_meshes() {
    let mut arena = EntityArena::new();
    let size = Size3::new(100, 200, 300);
    let solid = Color::srgb(400, 400, 400);
    let glass = Color::srgba(500, 700, 1000, 150);
    spawn_wall(&mut arena, PhysicsMode::Avian2d, Vec3::new(0, 0, 0), size, solid);
    spawn_wall(&mut arena, PhysicsMode::Rapier2d, Vec3::new(0, 0, 0), size, glass);
    spawn_wall(&mut arena, PhysicsMode::Avian3d, Vec3::new(0, 0, 0), size, solid);
    spawn_wall(&mut arena, PhysicsMode::Rapier3d, Vec3::new(0, 0, 0), size, glass);
    let walls = arena.entities();
    assert_eq!(walls[0].visual, Visual::Sprite { color: solid, width: 100, height: 200 });
    assert_eq!(walls[1].visual, Visual::Sprite { color: glass, width: 100, height: 200 });
    assert_eq!(
        walls[2].visual,
        Visual::Cuboid { color: solid, alpha_mode: AlphaMode::Opaque, size }
    );
    assert_eq!(
        walls[3].visual,
        Visual::Cuboid { color: glass, alpha_mode: AlphaMode::Blend, size }
    );
}

#[test]
fn alpha_just_below_full_blends() {
    assert!(Color::srgba(1, 2, 3, 999).is_translucent());
    assert!(!Color::srgba(1, 2, 3, 1000).is_translucent());
    assert!(!Color::srgb(1, 2, 3).is_translucent());
    assert_eq!(Color::srgb(1, 2, 3).alpha, 1000);
}

#[test]
fn balls_use_each_engines_round_collider() {
    let mut arena = EntityArena::new();
    let position = Vec3::new(5, 530_000, -7);
    for mode in [
        PhysicsMode::Avian2d,
        PhysicsMode::Avian3d,
        PhysicsMode::Rapier2d,
        PhysicsMode::Rapier3d,
    ] {
        spawn_ball(&mut arena, mode, position, 6_000, &ASSETS);
    }
    let balls = arena.entities();
    assert_eq!(balls[0].collider, Collider::AvianCircle { radius: 6_000 });
    assert_eq!(balls[1].collider, Collider::AvianSphere { radius: 6_000 });
    assert_eq!(balls[2].collider, Collider::RapierBall2d { radius: 6_000 });
    assert_eq!(balls[3].collider, Collider::RapierBall3d { radius: 6_000 });
    assert_eq!(balls[0].body, EngineBody::AvianDynamic);
    assert_eq!(balls[1].body, EngineBody::AvianDynamic);
    assert_eq!(balls[2].body, EngineBody::RapierDynamic);
    assert_eq!(balls[3].body, EngineBody::RapierDynamic);
    assert_eq!(balls[0].visual, Visual::SharedMesh2d { mesh: 11, material: 12 });
    assert_eq!(balls[1].visual, Visual::SharedMesh3d { mesh: 13, material: 14 });
    assert_eq!(balls[2].visual, Visual::SharedMesh2d { mesh: 11, material: 12 });
    assert_eq!(balls[3].visual, Visual::SharedMesh3d { mesh: 13, material: 14 });
    for (i, ball) in balls.iter().enumerate() {
        assert_eq!(ball.handle, i as u64);
        assert_eq!(ball.role, Role::Ball);
        assert_eq!(ball.position, position);
    }
    assert_eq!(balls[3].owner, PhysicsMode::Rapier3d);
}

#[test]
fn body_kinds_under_each_engine() {
    assert_eq!(engine_body(PhysicsMode::Avian2d, BodyKind::Static), EngineBody::AvianStatic);
    assert_eq!(engine_body(PhysicsMode::Avian3d, BodyKind::Dynamic), EngineBody::AvianDynamic);
    assert_eq!(engine_body(PhysicsMode::Rapier2d, BodyKind::Static), EngineBody::RapierFixed);
    assert_eq!(engine_body(PhysicsMode::Rapier3d, BodyKind::Dynamic), EngineBody::RapierDynamic);
}

#[test]
fn round_shapes_ignore_their_canonical_name() {
    assert_eq!(
        engine_collider(PhysicsMode::Avian3d, Shape::Circle { radius: 4 }),
        Collider::AvianSphere { radius: 4 }
    );
    assert_eq!(
        engine_collider(PhysicsMode::Rapier2d, Shape::Sphere { radius: 4 }),
        round_collider(PhysicsMode::Rapier2d, 4)
    );
}

#[test]
fn gravity_points_down_with_the_canonical_magnitude() {
    assert_eq!(GRAVITY, 9_810 * LENGTH_UNIT);
    for mode in [
        PhysicsMode::Avian2d,
        PhysicsMode::Avian3d,
        PhysicsMode::Rapier2d,
        PhysicsMode::Rapier3d,
    ] {
        assert_eq!(configure_gravity(mode, GRAVITY), Vec3 { x: 0, y: -98_100, z: 0 });
    }
    assert_eq!(configure_gravity(PhysicsMode::Avian2d, 0), Vec3 { x: 0, y: 0, z: 0 });
    assert_eq!(
        configure_gravity(PhysicsMode::Avian2d, i64::MAX as u64),
        Vec3 { x: 0, y: -i64::MAX, z: 0 }
    );
}

#[test]
fn engine_registration() {
    let setups = [
        plugin(PhysicsMode::Avian2d),
        plugin(PhysicsMode::Avian3d),
        plugin(PhysicsMode::Rapier2d),
        plugin(PhysicsMode::Rapier3d),
    ];
    for setup in setups {
        assert_eq!(setup.length_unit, 10);
        assert_eq!(setup.gravity, Vec3 { x: 0, y: -98_100, z: 0 });
    }
    assert_eq!(setups.iter().filter(|s| s.interpolation).count(), 1);
    assert!(setups[0].interpolation);
    assert!(!setups[0].gravity_set_after_startup);
    assert!(!setups[1].gravity_set_after_startup);
    assert!(setups[2].gravity_set_after_startup);
    assert!(setups[3].gravity_set_after_startup);
    assert_eq!(setups[3].mode, PhysicsMode::Rapier3d);
    assert_eq!(POOL_DEPTH, 1_920_000);
}
