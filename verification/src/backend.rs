//! Physics backend abstraction.
//!
//! Walls and balls are requested in canonical units: full extents, full
//! radius. Each engine wants them in its own terms, and this module is the
//! only place that knows the differences:
//! - Avian boxes take full extents; Rapier cuboids take half extents.
//! - Avian has circles and spheres; Rapier calls both a ball.
//! - An immovable body is `Static` in Avian and `Fixed` in Rapier.
//!
//! Every entity is created inside an [`EntityArena`] and tagged with the mode
//! that created it, so that leaving the mode removes it.

use vstd::prelude::*;
use crate::geometry::{Color, Size3, Vec3};
use crate::mode::PhysicsMode;
use crate::scope::EntityArena;

verus! {

/// World units (pixels) per metre, handed to every engine so that their unit conversion matches.
pub const LENGTH_UNIT: u64 = 10;

/// Gravitational acceleration: 9.81 m/s² times `LENGTH_UNIT`, in thousandths of a world unit per s².
pub const GRAVITY: u64 = 98_100;

/// Depth of the volumetric pool (full extent), equal to its width so that the floor is square.
pub const POOL_DEPTH: u64 = 1_920_000;

/// What an entity is to the harness.
#[derive(Clone, Copy, Debug, PartialEq, Eq, Structural)]
pub enum Role {
    Wall,
    Ball,
}

/// Whether a body moves, in canonical terms.
#[derive(Clone, Copy, Debug, PartialEq, Eq, Structural)]
pub enum BodyKind {
    Static,
    Dynamic,
}

/// The shape of a body, in canonical terms: full radius, full extents.
#[derive(Clone, Copy, Debug, PartialEq, Eq, Structural)]
pub enum Shape {
    Circle { radius: u64 },
    Sphere { radius: u64 },
    Box { full_extents: Size3 },
}

/// A body as the harness asks for it, free of any engine's conventions.
#[derive(Clone, Copy, Debug, PartialEq, Eq, Structural)]
pub struct RigidBodySpec {
    pub shape: Shape,
    pub kind: BodyKind,
    pub position: Vec3,
    pub color: Color,
}

/// The body kind under the name that the owning engine gives it.
#[derive(Clone, Copy, Debug, PartialEq, Eq, Structural)]
pub enum EngineBody {
    AvianStatic,
    AvianDynamic,
    RapierFixed,
    RapierDynamic,
}

/// The collider constructor of the owning engine, with the arguments it takes.
#[derive(Clone, Copy, Debug, PartialEq, Eq, Structural)]
pub enum Collider {
    AvianRectangle { width: u64, height: u64 },
    AvianCuboid { width: u64, height: u64, depth: u64 },
    AvianCircle { radius: u64 },
    AvianSphere { radius: u64 },
    RapierCuboid2d { half_x: u64, half_y: u64 },
    RapierCuboid3d { half_x: u64, half_y: u64, half_z: u64 },
    RapierBall2d { radius: u64 },
    RapierBall3d { radius: u64 },
}

/// How a material treats its opacity.
#[derive(Clone, Copy, Debug, PartialEq, Eq, Structural)]
pub enum AlphaMode {
    Opaque,
    Blend,
}

/// What the render host draws for an entity.
#[derive(Clone, Copy, Debug, PartialEq, Eq, Structural)]
pub enum Visual {
    /// A flat coloured rectangle, for planar walls.
    Sprite { color: Color, width: u64, height: u64 },
    /// A box mesh with a material of its own, for volumetric walls.
    Cuboid { color: Color, alpha_mode: AlphaMode, size: Size3 },
    /// The mesh and material shared by every planar ball.
    SharedMesh2d { mesh: u64, material: u64 },
    /// The mesh and material shared by every volumetric ball.
    SharedMesh3d { mesh: u64, material: u64 },
}

/// Identifiers of the mesh and material that all balls share, so that the
/// render host can batch them instead of issuing one draw call per ball.
#[derive(Clone, Copy, Debug, PartialEq, Eq, Structural)]
pub struct BallAssets {
    pub mesh2d: u64,
    pub mat2d: u64,
    pub mesh3d: u64,
    pub mat3d: u64,
}

/// An entity of the simulation: an arena handle, the mode that owns it, its
/// role, and the components that the owning engine and the render host need.
#[derive(Clone, Copy, Debug, PartialEq, Eq, Structural)]
pub struct SimulationEntity {
    pub handle: u64,
    pub owner: PhysicsMode,
    pub role: Role,
    pub position: Vec3,
    pub body: EngineBody,
    pub collider: Collider,
    pub visual: Visual,
}

/// The engine's name for a canonical body kind.
pub open spec fn spec_engine_body(mode: PhysicsMode, kind: BodyKind) -> EngineBody {
    match kind {
        BodyKind::Static => if mode.spec_is_rapier() {
            EngineBody::RapierFixed
        } else {
            EngineBody::AvianStatic
        },
        BodyKind::Dynamic => if mode.spec_is_rapier() {
            EngineBody::RapierDynamic
        } else {
            EngineBody::AvianDynamic
        },
    }
}

/// The engine's collider for a box of the given full extents.
pub open spec fn spec_box_collider(mode: PhysicsMode, size: Size3) -> Collider {
    match mode {
        PhysicsMode::Avian2d => Collider::AvianRectangle { width: size.width, height: size.height },
        PhysicsMode::Avian3d => Collider::AvianCuboid {
            width: size.width,
            height: size.height,
            depth: size.depth,
        },
        PhysicsMode::Rapier2d => Collider::RapierCuboid2d {
            half_x: size.width / 2,
            half_y: size.height / 2,
        },
        PhysicsMode::Rapier3d => Collider::RapierCuboid3d {
            half_x: size.width / 2,
            half_y: size.height / 2,
            half_z: size.depth / 2,
        },
    }
}

/// The engine's collider for a round body of the given radius.
pub open spec fn spec_round_collider(mode: PhysicsMode, radius: u64) -> Collider {
    match mode {
        PhysicsMode::Avian2d => Collider::AvianCircle { radius },
        PhysicsMode::Avian3d => Collider::AvianSphere { radius },
        PhysicsMode::Rapier2d => Collider::RapierBall2d { radius },
        PhysicsMode::Rapier3d => Collider::RapierBall3d { radius },
    }
}

/// The engine's collider for a canonical shape. A round shape becomes the
/// engine's own round collider whichever of the two canonical names it has.
pub open spec fn spec_engine_collider(mode: PhysicsMode, shape: Shape) -> Collider {
    match shape {
        Shape::Circle { radius } => spec_round_collider(mode, radius),
        Shape::Sphere { radius } => spec_round_collider(mode, radius),
        Shape::Box { full_extents } => spec_box_collider(mode, full_extents),
    }
}

/// The full extents that a box collider covers, in canonical units.
pub open spec fn collider_full_extents(collider: Collider) -> (int, int, int) {
    match collider {
        Collider::AvianRectangle { width, height } => (width as int, height as int, 0),
        Collider::AvianCuboid { width, height, depth } => (width as int, height as int, depth as int),
        Collider::RapierCuboid2d { half_x, half_y } => (2 * half_x, 2 * half_y, 0),
        Collider::RapierCuboid3d { half_x, half_y, half_z } => (2 * half_x, 2 * half_y, 2 * half_z),
        Collider::AvianCircle { radius } => (2 * radius, 2 * radius, 0),
        Collider::AvianSphere { radius } => (2 * radius, 2 * radius, 2 * radius),
        Collider::RapierBall2d { radius } => (2 * radius, 2 * radius, 0),
        Collider::RapierBall3d { radius } => (2 * radius, 2 * radius, 2 * radius),
    }
}

/// The canonical description of a wall.
pub open spec fn wall_spec(position: Vec3, size: Size3, color: Color) -> RigidBodySpec {
    RigidBodySpec {
        shape: Shape::Box { full_extents: size },
        kind: BodyKind::Static,
        position,
        color,
    }
}

/// The canonical shape of a ball: a circle in the plane, a sphere in a volume.
pub open spec fn ball_shape(mode: PhysicsMode, radius: u64) -> Shape {
    if mode.spec_is_3d() {
        Shape::Sphere { radius }
    } else {
        Shape::Circle { radius }
    }
}

/// What is drawn for a wall: a sprite in the plane, a box mesh in a volume,
/// blended when the colour is translucent.
pub open spec fn spec_wall_visual(mode: PhysicsMode, size: Size3, color: Color) -> Visual {
    if mode.spec_is_3d() {
        Visual::Cuboid {
            color,
            alpha_mode: if color.spec_is_translucent() {
                AlphaMode::Blend
            } else {
                AlphaMode::Opaque
            },
            size,
        }
    } else {
        Visual::Sprite { color, width: size.width, height: size.height }
    }
}

/// What is drawn for a ball: the shared planar or volumetric mesh and material.
pub open spec fn spec_ball_visual(mode: PhysicsMode, assets: BallAssets) -> Visual {
    if mode.spec_is_3d() {
        Visual::SharedMesh3d { mesh: assets.mesh3d, material: assets.mat3d }
    } else {
        Visual::SharedMesh2d { mesh: assets.mesh2d, material: assets.mat2d }
    }
}

/// The wall entity that `mode` creates under `handle`.
pub open spec fn wall_entity(
    handle: u64,
    mode: PhysicsMode,
    position: Vec3,
    size: Size3,
    color: Color,
) -> SimulationEntity {
    SimulationEntity {
        handle,
        owner: mode,
        role: Role::Wall,
        position,
        body: spec_engine_body(mode, BodyKind::Static),
        collider: spec_engine_collider(mode, wall_spec(position, size, color).shape),
        visual: spec_wall_visual(mode, size, color),
    }
}

/// The ball entity that `mode` creates under `handle`.
pub open spec fn ball_entity(
    handle: u64,
    mode: PhysicsMode,
    position: Vec3,
    radius: u64,
    assets: BallAssets,
) -> SimulationEntity {
    SimulationEntity {
        handle,
        owner: mode,
        role: Role::Ball,
        position,
        body: spec_engine_body(mode, BodyKind::Dynamic),
        collider: spec_engine_collider(mode, ball_shape(mode, radius)),
        visual: spec_ball_visual(mode, assets),
    }
}

/// Gravity as every engine receives it: the canonical magnitude along the
/// negative vertical axis, nothing along the others.
pub open spec fn spec_gravity_vector(magnitude: u64) -> Vec3 {
    Vec3 { x: 0, y: -(magnitude as int) as i64, z: 0 }
}

/// Name a canonical body kind as the engine does.
pub fn engine_body(mode: PhysicsMode, kind: BodyKind) -> (body: EngineBody)
    ensures
        body == spec_engine_body(mode, kind),
{
    match kind {
        BodyKind::Static => if mode.is_rapier() {
            EngineBody::RapierFixed
        } else {
            EngineBody::AvianStatic
        },
        BodyKind::Dynamic => if mode.is_rapier() {
            EngineBody::RapierDynamic
        } else {
            EngineBody::AvianDynamic
        },
    }
}

/// Build the engine's collider for a canonical shape, halving the extents
/// of a box where the engine wants half extents.
pub fn engine_collider(mode: PhysicsMode, shape: Shape) -> (collider: Collider)
    ensures
        collider == spec_engine_collider(mode, shape),
{
    match shape {
        Shape::Circle { radius } => round_collider(mode, radius),
        Shape::Sphere { radius } => round_collider(mode, radius),
        Shape::Box { full_extents } => match mode {
            PhysicsMode::Avian2d => Collider::AvianRectangle {
                width: full_extents.width,
                height: full_extents.height,
            },
            PhysicsMode::Avian3d => Collider::AvianCuboid {
                width: full_extents.width,
                height: full_extents.height,
                depth: full_extents.depth,
            },
            PhysicsMode::Rapier2d => Collider::RapierCuboid2d {
                half_x: full_extents.width / 2,
                half_y: full_extents.height / 2,
            },
            PhysicsMode::Rapier3d => Collider::RapierCuboid3d {
                half_x: full_extents.width / 2,
                half_y: full_extents.height / 2,
                half_z: full_extents.depth / 2,
            },
        },
    }
}

/// Build the engine's round collider of the given radius.
pub fn round_collider(mode: PhysicsMode, radius: u64) -> (collider: Collider)
    ensures
        collider == spec_round_collider(mode, radius),
{
    match mode {
        PhysicsMode::Avian2d => Collider::AvianCircle { radius },
        PhysicsMode::Avian3d => Collider::AvianSphere { radius },
        PhysicsMode::Rapier2d => Collider::RapierBall2d { radius },
        PhysicsMode::Rapier3d => Collider::RapierBall3d { radius },
    }
}

/// The gravity vector handed to the engine of `mode`. All four engines take
/// the same vector; planar ones read its first two components.
pub fn configure_gravity(mode: PhysicsMode, magnitude: u64) -> (gravity: Vec3)
    requires
        magnitude <= i64::MAX,
    ensures
        gravity == spec_gravity_vector(magnitude),
        gravity.x == 0,
        gravity.z == 0,
        gravity.y == -(magnitude as int),
{
    let down: i64 = 0 - (magnitude as i64);
    Vec3 { x: 0, y: down, z: 0 }
}

/// How one engine is registered with the host.
#[derive(Clone, Copy, Debug, PartialEq, Eq, Structural)]
pub struct EngineSetup {
    /// The engine that is registered.
    pub mode: PhysicsMode,
    /// World units per metre, the same for every engine.
    pub length_unit: u64,
    /// The gravity vector that the engine is given.
    pub gravity: Vec3,
    /// Whether the engine registers the transform interpolation that the two
    /// Avian engines share. The host accepts it once only.
    pub interpolation: bool,
    /// Whether gravity has to be written into the engine's configuration
    /// after the engine has created it, instead of being handed over at
    /// registration. Rapier's own default is ten times too strong at this
    /// length unit.
    pub gravity_set_after_startup: bool,
}

/// The registration of the engine of `mode`.
pub open spec fn spec_engine_setup(mode: PhysicsMode) -> EngineSetup {
    EngineSetup {
        mode,
        length_unit: LENGTH_UNIT,
        gravity: spec_gravity_vector(GRAVITY),
        interpolation: mode == PhysicsMode::Avian2d,
        gravity_set_after_startup: mode.spec_is_rapier(),
    }
}

/// How the engine of `mode` is registered. All four engines are registered
/// at start and stay registered; an engine that owns no entity has nothing
/// to process. All get the same length unit and the same gravity.
pub fn plugin(mode: PhysicsMode) -> (setup: EngineSetup)
    ensures
        setup == spec_engine_setup(mode),
{
    EngineSetup {
        mode,
        length_unit: LENGTH_UNIT,
        gravity: configure_gravity(mode, GRAVITY),
        interpolation: match mode {
            PhysicsMode::Avian2d => true,
            _ => false,
        },
        gravity_set_after_startup: mode.is_rapier(),
    }
}

/// Of the two engines that would both register the shared interpolation,
/// exactly one does, and the engines that have no such feature never do.
pub proof fn lemma_interpolation_registered_once()
    ensures
        spec_engine_setup(PhysicsMode::Avian2d).interpolation != spec_engine_setup(
            PhysicsMode::Avian3d,
        ).interpolation,
        !spec_engine_setup(PhysicsMode::Rapier2d).interpolation,
        !spec_engine_setup(PhysicsMode::Rapier3d).interpolation,
{
}

/// Spawn a static wall with the components of the given engine.
/// `size` holds full extents; the depth is only used by volumetric engines.
/// The entity is owned by `mode` and leaves the arena when that scope is despawned.
pub fn spawn_wall(
    arena: &mut EntityArena,
    mode: PhysicsMode,
    position: Vec3,
    size: Size3,
    color: Color,
) -> (handle: u64)
    requires
        old(arena).wf(),
        old(arena).next_handle() < u64::MAX,
    ensures
        final(arena).wf(),
        handle == old(arena).next_handle(),
        final(arena).next_handle() == handle + 1,
        final(arena)@ == old(arena)@.push(wall_entity(handle, mode, position, size, color)),
{
    let spec = RigidBodySpec {
        shape: Shape::Box { full_extents: size },
        kind: BodyKind::Static,
        position,
        color,
    };
    let visual = if mode.is_3d() {
        let alpha_mode = if color.is_translucent() {
            AlphaMode::Blend
        } else {
            AlphaMode::Opaque
        };
        Visual::Cuboid { color, alpha_mode, size }
    } else {
        Visual::Sprite { color, width: size.width, height: size.height }
    };
    arena.spawn(
        mode,
        Role::Wall,
        spec.position,
        engine_body(mode, spec.kind),
        engine_collider(mode, spec.shape),
        visual,
    )
}

/// Spawn a dynamic ball with the components of the given engine.
/// All balls refer to the shared mesh and material in `assets`.
/// The entity is owned by `mode` and leaves the arena when that scope is despawned.
pub fn spawn_ball(
    arena: &mut EntityArena,
    mode: PhysicsMode,
    position: Vec3,
    radius: u64,
    assets: &BallAssets,
) -> (handle: u64)
    requires
        old(arena).wf(),
        old(arena).next_handle() < u64::MAX,
    ensures
        final(arena).wf(),
        handle == old(arena).next_handle(),
        final(arena).next_handle() == handle + 1,
        final(arena)@ == old(arena)@.push(ball_entity(handle, mode, position, radius, *assets)),
{
    let (shape, visual) = if mode.is_3d() {
        (
            Shape::Sphere { radius },
            Visual::SharedMesh3d { mesh: assets.mesh3d, material: assets.mat3d },
        )
    } else {
        (
            Shape::Circle { radius },
            Visual::SharedMesh2d { mesh: assets.mesh2d, material: assets.mat2d },
        )
    };
    arena.spawn(
        mode,
        Role::Ball,
        position,
        engine_body(mode, BodyKind::Dynamic),
        engine_collider(mode, shape),
        visual,
    )
}

/// A box collider covers the requested extents to within one unit of
/// resolution on each axis that the engine has, and exactly where the engine
/// takes full extents or the extent is even.
pub proof fn lemma_box_collider_covers_extents(mode: PhysicsMode, size: Size3)
    ensures
        ({
            let (w, h, d) = collider_full_extents(spec_box_collider(mode, size));
            &&& w <= size.width < w + 2
            &&& h <= size.height < h + 2
            &&& (mode.spec_is_3d() ==> d <= size.depth < d + 2)
            &&& (!mode.spec_is_3d() ==> d == 0)
            &&& (!mode.spec_is_rapier() || size.width % 2 == 0 ==> w == size.width)
            &&& (!mode.spec_is_rapier() || size.height % 2 == 0 ==> h == size.height)
            &&& (mode.spec_is_3d() && (!mode.spec_is_rapier() || size.depth % 2 == 0) ==> d
                == size.depth)
        }),
{
}

/// Walls never move and balls always do, under every engine's naming.
pub proof fn lemma_roles_fix_body_kind(
    handle: u64,
    mode: PhysicsMode,
    position: Vec3,
    size: Size3,
    color: Color,
    radius: u64,
    assets: BallAssets,
)
    ensures
        ({
            let wall = wall_entity(handle, mode, position, size, color);
            wall.body == EngineBody::AvianStatic || wall.body == EngineBody::RapierFixed
        }),
        ({
            let ball = ball_entity(handle, mode, position, radius, assets);
            ball.body == EngineBody::AvianDynamic || ball.body == EngineBody::RapierDynamic
        }),
        wall_entity(handle, mode, position, size, color).owner == mode,
        ball_entity(handle, mode, position, radius, assets).owner == mode,
        ball_entity(handle, mode, position, radius, assets).collider == spec_round_collider(
            mode,
            radius,
        ),
{
}

} // verus!
