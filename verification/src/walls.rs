//! Floor, side walls, and (for volumetric engines) front and back walls.
//! No top wall, so that balls can drop in.

use vstd::prelude::*;
use crate::backend::{spawn_wall, wall_entity, SimulationEntity, POOL_DEPTH};
use crate::geometry::{Color, Size3, Vec3};
use crate::mode::PhysicsMode;
use crate::scope::EntityArena;

verus! {

/// Width of the pool, outer edge to outer edge.
pub const WIDTH: u64 = 1_920_000;

/// Height of the pool, from the underside of the floor to the open top.
pub const HEIGHT: u64 = 1_080_000;

/// Thickness of every wall.
pub const WALL_THICKNESS: u64 = 10_000;

/// Where a wall stands, how large it is, and its colour.
#[derive(Clone, Copy, Debug, PartialEq, Eq, Structural)]
pub struct WallPlan {
    pub position: Vec3,
    pub size: Size3,
    pub color: Color,
}

/// Colour of the solid walls.
pub open spec fn wall_color() -> Color {
    Color { red: 400, green: 400, blue: 400, alpha: 1000 }
}

/// Colour of the front wall: translucent glass, so that the inside shows.
pub open spec fn glass_color() -> Color {
    Color { red: 500, green: 700, blue: 1000, alpha: 150 }
}

/// Depth of the floor and the side walls: the interior depth between the
/// front and back walls in a volume, one wall thickness in the plane.
pub open spec fn side_depth(mode: PhysicsMode) -> u64 {
    if mode.spec_is_3d() {
        (POOL_DEPTH - 2 * WALL_THICKNESS) as u64
    } else {
        WALL_THICKNESS
    }
}

/// Width of the floor: trimmed to fit between the side walls in a volume.
pub open spec fn floor_width(mode: PhysicsMode) -> u64 {
    if mode.spec_is_3d() {
        (WIDTH - 2 * WALL_THICKNESS) as u64
    } else {
        WIDTH
    }
}

/// The floor: centred, lying on the bottom edge.
pub open spec fn floor_plan(mode: PhysicsMode) -> WallPlan {
    WallPlan {
        position: Vec3 { x: 0, y: (WALL_THICKNESS / 2 - HEIGHT / 2) as i64, z: 0 },
        size: Size3 { width: floor_width(mode), height: WALL_THICKNESS, depth: side_depth(mode) },
        color: wall_color(),
    }
}

/// A side wall of full height at the left (`sign` = -1) or right (`sign` = 1) edge.
pub open spec fn side_plan(mode: PhysicsMode, sign: int) -> WallPlan {
    WallPlan {
        position: Vec3 { x: (sign * (WIDTH / 2 - WALL_THICKNESS / 2)) as i64, y: 0, z: 0 },
        size: Size3 { width: WALL_THICKNESS, height: HEIGHT, depth: side_depth(mode) },
        color: wall_color(),
    }
}

/// The back (`sign` = -1) or front (`sign` = 1) wall of a volume; the front one is glass.
pub open spec fn end_plan(sign: int) -> WallPlan {
    WallPlan {
        position: Vec3 { x: 0, y: 0, z: (sign * (POOL_DEPTH / 2 - WALL_THICKNESS / 2)) as i64 },
        size: Size3 { width: WIDTH, height: HEIGHT, depth: WALL_THICKNESS },
        color: if sign > 0 {
            glass_color()
        } else {
            wall_color()
        },
    }
}

/// The boundary of the pool under `mode`, in the order in which it is built:
/// floor, left, right, and in a volume back and front.
pub open spec fn pool_walls(mode: PhysicsMode) -> Seq<WallPlan> {
    let planar = seq![floor_plan(mode), side_plan(mode, -1), side_plan(mode, 1)];
    if mode.spec_is_3d() {
        planar.push(end_plan(-1)).push(end_plan(1))
    } else {
        planar
    }
}

/// The wall entities of `mode`, numbered from `first_handle` on.
pub open spec fn wall_entities(mode: PhysicsMode, first_handle: u64) -> Seq<SimulationEntity> {
    Seq::new(
        pool_walls(mode).len(),
        |i: int|
            wall_entity(
                (first_handle + i) as u64,
                mode,
                pool_walls(mode)[i].position,
                pool_walls(mode)[i].size,
                pool_walls(mode)[i].color,
            ),
    )
}

/// Build the boundary of the pool for `mode`: three walls in the plane, five
/// in a volume, each owned by `mode`.
pub fn spawn_walls(arena: &mut EntityArena, mode: PhysicsMode)
    requires
        old(arena).wf(),
        old(arena).next_handle() + 5 <= u64::MAX,
    ensures
        final(arena).wf(),
        final(arena)@ == old(arena)@ + wall_entities(mode, old(arena).next_handle()),
        final(arena).next_handle() == old(arena).next_handle() + pool_walls(mode).len(),
        pool_walls(mode).len() == if mode.spec_is_3d() { 5nat } else { 3nat },
{
    let wall_color = Color::srgb(400, 400, 400);
    let is_3d = mode.is_3d();

    // In a volume, trim the side walls so that they fit between the front and
    // back walls without overlapping at the corners.
    let side_depth: u64 = if is_3d {
        POOL_DEPTH - 2 * WALL_THICKNESS
    } else {
        WALL_THICKNESS
    };

    // Floor: in a volume trimmed along both axes to fit inside the other walls.
    let floor_width: u64 = if is_3d {
        WIDTH - 2 * WALL_THICKNESS
    } else {
        WIDTH
    };
    let half_height: i64 = 540_000;
    let half_width: i64 = 960_000;
    let half_depth: i64 = 960_000;
    let half_thickness: i64 = 5_000;
    assert(half_height == HEIGHT / 2 && half_width == WIDTH / 2 && half_depth == POOL_DEPTH / 2
        && half_thickness == WALL_THICKNESS / 2);

    spawn_wall(
        arena,
        mode,
        Vec3::new(0, half_thickness - half_height, 0),
        Size3::new(floor_width, WALL_THICKNESS, side_depth),
        wall_color,
    );

    // Left wall: full height at the left edge.
    spawn_wall(
        arena,
        mode,
        Vec3::new(half_thickness - half_width, 0, 0),
        Size3::new(WALL_THICKNESS, HEIGHT, side_depth),
        wall_color,
    );

    // Right wall: full height at the right edge.
    spawn_wall(
        arena,
        mode,
        Vec3::new(half_width - half_thickness, 0, 0),
        Size3::new(WALL_THICKNESS, HEIGHT, side_depth),
        wall_color,
    );

    if is_3d {
        // Back wall, away from the camera.
        spawn_wall(
            arena,
            mode,
            Vec3::new(0, 0, half_thickness - half_depth),
            Size3::new(WIDTH, HEIGHT, WALL_THICKNESS),
            wall_color,
        );

        // Front wall, toward the camera: glass.
        spawn_wall(
            arena,
            mode,
            Vec3::new(0, 0, half_depth - half_thickness),
            Size3::new(WIDTH, HEIGHT, WALL_THICKNESS),
            Color::srgba(500, 700, 1000, 150),
        );
    }
    proof {
        assert(arena@ =~= old(arena)@ + wall_entities(mode, old(arena).next_handle()));
    }
}

/// Every wall of the boundary is a static wall owned by the mode it was built
/// for, and only the front wall of a volume is drawn blended.
pub proof fn lemma_walls_belong_to_mode(mode: PhysicsMode, first_handle: u64, i: int)
    requires
        0 <= i < pool_walls(mode).len(),
    ensures
        wall_entities(mode, first_handle)[i].owner == mode,
        wall_entities(mode, first_handle)[i].role == crate::backend::Role::Wall,
        wall_entities(mode, first_handle)[i].body == crate::backend::spec_engine_body(
            mode,
            crate::backend::BodyKind::Static,
        ),
        pool_walls(mode)[i].color.spec_is_translucent() <==> i == 4,
        pool_walls(mode)[i].position.y <= 0,
{
}

} // verus!
