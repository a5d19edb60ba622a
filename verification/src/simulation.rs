//! The simulation context: the active mode and everything that is reset
//! when the mode changes, threaded explicitly through every update.
//!
//! A mode change is immediate. It happens in a fixed order: the entities of
//! the outgoing mode are destroyed, the camera and the boundary of the
//! incoming mode are set up, the counters and milestones are cleared, and
//! the simulation clock is paused.

use vstd::prelude::*;
use crate::backend::{BallAssets, SimulationEntity, POOL_DEPTH};
use crate::camera::{
    cam3d_pos_for_window, default_cam3d_pos, default_ortho_scale, look_at, ortho_scale_for_window,
    spec_camera_position, spec_fit_ratio, spec_look_at, CameraParams, Ratio, CAM3D_REF_H,
    CAM3D_REF_W, POOL_H, POOL_W,
};
use crate::geometry::MILLI;
use crate::mode::PhysicsMode;
use crate::scope::{
    handles_of, lemma_filter_all, lemma_filter_none, BallSighting, EntityArena, Selector,
};
use crate::spawner::{
    is_spawned_ball, spawn_balls, BallCount, BallsPerTick, SpawnTimer, BALL_RADIUS,
    SPAWN_INTERVAL, SPAWN_X_MAX, SPAWN_X_MIN, SPAWN_Y, SPAWN_Z_HALF, SPAWN_Z_MARGIN,
};
use crate::telemetry::{FrameSample, Telemetry};
use crate::walls::{pool_walls, spawn_walls, wall_entities, HEIGHT, WALL_THICKNESS, WIDTH};

verus! {

/// Height of the bottom edge of the pool: a ball strictly below it has clipped through the floor.
pub const FLOOR_Y: i64 = -540_000;

/// The keys that went down in this frame. Each is an edge: a key held down is reported once.
#[derive(Clone, Copy, Debug, PartialEq, Eq, Structural)]
pub struct KeyPresses {
    pub digit1: bool,
    pub digit2: bool,
    pub digit3: bool,
    pub digit4: bool,
    pub enter: bool,
    pub space: bool,
    pub arrow_up: bool,
    pub arrow_down: bool,
}

/// Size of the window in pixels.
#[derive(Clone, Copy, Debug, PartialEq, Eq, Structural)]
pub struct WindowSize {
    pub width: u32,
    pub height: u32,
}

/// Number of balls that fell out of the pool since the current mode was entered.
#[derive(Clone, Copy, Debug, PartialEq, Eq, Structural)]
pub struct ClippedBallCount(pub usize);

impl Default for ClippedBallCount {
    fn default() -> (count: ClippedBallCount)
        ensures
            count.0 == 0,
    {
        ClippedBallCount(0)
    }
}

/// The mode that the keys ask for: a digit selects its mode, the first
/// digit winning over the later ones, and otherwise Enter asks for the
/// successor of the current mode.
pub open spec fn spec_wanted_mode(keys: KeyPresses, current: PhysicsMode) -> Option<PhysicsMode> {
    if keys.digit1 {
        Some(PhysicsMode::Avian2d)
    } else if keys.digit2 {
        Some(PhysicsMode::Avian3d)
    } else if keys.digit3 {
        Some(PhysicsMode::Rapier2d)
    } else if keys.digit4 {
        Some(PhysicsMode::Rapier3d)
    } else if keys.enter {
        Some(current.spec_next())
    } else {
        None
    }
}

/// The mode to change to, if the keys ask for one other than the current.
pub open spec fn spec_mode_switch(keys: KeyPresses, current: PhysicsMode) -> Option<PhysicsMode> {
    if spec_wanted_mode(keys, current) == Some(current) {
        None
    } else {
        spec_wanted_mode(keys, current)
    }
}

/// Keys 1 to 4 jump to a specific mode; Enter cycles to the next one.
/// Asking for the mode that is already active is not a change.
pub fn handle_mode_switch(keys: &KeyPresses, current: PhysicsMode) -> (target: Option<PhysicsMode>)
    ensures
        target == spec_mode_switch(*keys, current),
        target != Some(current),
{
    let new_mode = if keys.digit1 {
        Some(PhysicsMode::Avian2d)
    } else if keys.digit2 {
        Some(PhysicsMode::Avian3d)
    } else if keys.digit3 {
        Some(PhysicsMode::Rapier2d)
    } else if keys.digit4 {
        Some(PhysicsMode::Rapier3d)
    } else if keys.enter {
        Some(current.next())
    } else {
        None
    };
    match new_mode {
        Some(mode) => if mode == current {
            None
        } else {
            Some(mode)
        },
        None => None,
    }
}

/// The batch size after the keys of one frame: Up adds one, Down takes one
/// away but stops at one, and Up wins when both went down.
pub open spec fn spec_balls_per_tick(keys: KeyPresses, per_tick: usize) -> int {
    if keys.arrow_up {
        per_tick + 1
    } else if keys.arrow_down && per_tick > 1 {
        per_tick - 1
    } else if keys.arrow_down {
        1
    } else {
        per_tick as int
    }
}

/// Up and Down arrows increase or decrease the balls spawned per tick
/// (at least one). Returns whether a key asked for a change, so that the
/// display is refreshed.
pub fn handle_balls_per_tick(keys: &KeyPresses, balls_per_tick: &mut BallsPerTick) -> (changed: bool)
    requires
        keys.arrow_up ==> old(balls_per_tick).0 < usize::MAX,
    ensures
        final(balls_per_tick).0 == spec_balls_per_tick(*keys, old(balls_per_tick).0),
        changed == (keys.arrow_up || keys.arrow_down),
        old(balls_per_tick).0 >= 1 ==> final(balls_per_tick).0 >= 1,
{
    if keys.arrow_up {
        balls_per_tick.increase();
        true
    } else if keys.arrow_down {
        balls_per_tick.decrease();
        true
    } else {
        false
    }
}

/// Space pauses a running clock and resumes a paused one.
pub fn toggle_pause(keys: &KeyPresses, paused: bool) -> (now_paused: bool)
    ensures
        now_paused == (paused != keys.space),
{
    if keys.space {
        !paused
    } else {
        paused
    }
}

/// The orthographic camera for a window: the scale that fits the pool, or
/// the default while no window with an area is known.
pub open spec fn spec_ortho_camera(window: Option<WindowSize>) -> CameraParams {
    CameraParams::Orthographic {
        scale: match window {
            Some(size) => if size.width > 0 && size.height > 0 {
                spec_fit_ratio(POOL_W, POOL_H, size.width, size.height)
            } else {
                Ratio { num: 2, den: 1 }
            },
            None => Ratio { num: 2, den: 1 },
        },
    }
}

/// The perspective camera for a window: the position that fits the pool, or
/// the reference position while no window with an area is known.
pub open spec fn spec_perspective_camera(window: Option<WindowSize>) -> CameraParams {
    CameraParams::Perspective {
        position: spec_camera_position(
            match window {
                Some(size) => if size.width > 0 && size.height > 0 {
                    spec_fit_ratio(CAM3D_REF_W, CAM3D_REF_H, size.width, size.height)
                } else {
                    Ratio { num: 1, den: 1 }
                },
                None => Ratio { num: 1, den: 1 },
            },
        ),
        look_at: spec_look_at(),
    }
}

/// The camera after entering `mode`: a camera of the right kind is kept as
/// it is, and one of the other kind is replaced by a new one fitted to the window.
pub open spec fn spec_camera_on_enter(
    mode: PhysicsMode,
    current: Option<CameraParams>,
    window: Option<WindowSize>,
) -> CameraParams {
    if mode.spec_is_3d() {
        match current {
            Some(CameraParams::Perspective { position, look_at }) => CameraParams::Perspective {
                position,
                look_at,
            },
            _ => spec_perspective_camera(window),
        }
    } else {
        match current {
            Some(CameraParams::Orthographic { scale }) => CameraParams::Orthographic { scale },
            _ => spec_ortho_camera(window),
        }
    }
}

/// The camera after the window was resized: the scale or position is
/// refitted to the new size; a size without area changes nothing.
pub open spec fn spec_camera_on_resize(camera: CameraParams, size: WindowSize) -> CameraParams {
    if size.width == 0 || size.height == 0 {
        camera
    } else {
        match camera {
            CameraParams::Orthographic { scale } => spec_ortho_camera(Some(size)),
            CameraParams::Perspective { position, look_at } => CameraParams::Perspective {
                position: spec_camera_position(
                    spec_fit_ratio(CAM3D_REF_W, CAM3D_REF_H, size.width, size.height),
                ),
                look_at,
            },
        }
    }
}

/// Set up the planar camera. An orthographic camera that is already there is
/// kept; otherwise the perspective camera is replaced by an orthographic one
/// whose scale fits the pool to the window.
pub fn enter_2d_camera(current: Option<CameraParams>, window: Option<WindowSize>) -> (camera:
    CameraParams)
    ensures
        camera == spec_camera_on_enter(PhysicsMode::Avian2d, current, window),
        camera is Orthographic,
{
    if let Some(CameraParams::Orthographic { scale }) = current {
        return CameraParams::Orthographic { scale };
    }
    let fitted = match window {
        Some(size) => ortho_scale_for_window(size.width, size.height),
        None => None,
    };
    let scale = match fitted {
        Some(scale) => scale,
        None => default_ortho_scale(),
    };
    CameraParams::Orthographic { scale }
}

/// Set up the camera in space. A perspective camera that is already there is
/// kept; otherwise the orthographic camera is replaced by one above and in
/// front of the pool, angled down, at the distance that fits the window.
pub fn enter_3d_camera(current: Option<CameraParams>, window: Option<WindowSize>) -> (camera:
    CameraParams)
    ensures
        camera == spec_camera_on_enter(PhysicsMode::Avian3d, current, window),
        camera is Perspective,
{
    if let Some(CameraParams::Perspective { position, look_at }) = current {
        return CameraParams::Perspective { position, look_at };
    }
    let fitted = match window {
        Some(size) => cam3d_pos_for_window(size.width, size.height),
        None => None,
    };
    let position = match fitted {
        Some(position) => position,
        None => default_cam3d_pos(),
    };
    CameraParams::Perspective { position, look_at: look_at() }
}

/// Adjust the camera when the window was resized, so that the whole pool
/// always fits inside the window without being clipped. `resized` is the
/// last size reported in this frame, if any.
pub fn fit_camera_to_pool(camera: CameraParams, resized: Option<WindowSize>) -> (fitted:
    CameraParams)
    ensures
        fitted == match resized {
            Some(size) => spec_camera_on_resize(camera, size),
            None => camera,
        },
        fitted is Orthographic <==> camera is Orthographic,
{
    let size = match resized {
        Some(size) => size,
        None => {
            return camera;
        },
    };
    match camera {
        CameraParams::Orthographic { scale } => match ortho_scale_for_window(
            size.width,
            size.height,
        ) {
            Some(scale) => CameraParams::Orthographic { scale },
            None => camera,
        },
        CameraParams::Perspective { position, look_at } => match cam3d_pos_for_window(
            size.width,
            size.height,
        ) {
            Some(position) => CameraParams::Perspective { position, look_at },
            None => camera,
        },
    }
}

/// The ball count after `reaped` balls were removed: it never goes below zero.
pub open spec fn spec_count_after_reaping(count: usize, reaped: nat) -> usize {
    if count >= reaped {
        (count - reaped) as usize
    } else {
        0
    }
}

/// Destroy every ball that was seen strictly below the floor, count each as
/// clipped and take it off the ball count, which stops at zero. Returns the
/// handles of the balls destroyed. A sighting of a ball that is already
/// gone changes nothing.
pub fn detect_clipped_balls(
    arena: &mut EntityArena,
    ball_count: &mut BallCount,
    sightings: &Vec<BallSighting>,
    clipped: &mut ClippedBallCount,
) -> (reaped: Vec<u64>)
    requires
        old(arena).wf(),
        old(clipped).0 + old(arena)@.len() <= usize::MAX,
    ensures
        final(arena).wf(),
        final(arena).next_handle() == old(arena).next_handle(),
        final(arena)@ == old(arena)@.filter(Selector::Sunk(sightings@, FLOOR_Y).kept()),
        reaped@ == handles_of(old(arena)@.filter(Selector::Sunk(sightings@, FLOOR_Y).removed())),
        reaped@.len() + final(arena)@.len() == old(arena)@.len(),
        final(ball_count).0 == spec_count_after_reaping(old(ball_count).0, reaped@.len()),
        final(clipped).0 == old(clipped).0 + reaped@.len(),
{
    let reaped = arena.despawn_sunk(sightings, FLOOR_Y);
    let mut i: usize = 0;
    while i < reaped.len()
        invariant
            i <= reaped.len(),
            old(clipped).0 + reaped.len() <= usize::MAX,
            clipped.0 == old(clipped).0 + i,
            ball_count.0 == spec_count_after_reaping(old(ball_count).0, i as nat),
        decreases reaped.len() - i,
    {
        ball_count.0 = if ball_count.0 > 0 {
            ball_count.0 - 1
        } else {
            0
        };
        clipped.0 = clipped.0 + 1;
        i += 1;
    }
    reaped
}

/// The measures of the harness agree with each other: the camera fits the
/// pool that the walls enclose, the floor line is the bottom edge of the
/// pool, and the centre of a ball appears between the inner faces of the
/// walls, the whole ball below the open top and above the floor line.
pub proof fn lemma_pool_measures_agree()
    ensures
        WIDTH == POOL_W * MILLI,
        HEIGHT == POOL_H * MILLI,
        POOL_DEPTH == WIDTH,
        FLOOR_Y == -(HEIGHT / 2),
        SPAWN_X_MAX < WIDTH / 2 - WALL_THICKNESS,
        SPAWN_X_MIN > -(WIDTH / 2 - WALL_THICKNESS),
        SPAWN_Z_HALF + BALL_RADIUS < POOL_DEPTH / 2 - WALL_THICKNESS,
        SPAWN_Z_HALF == POOL_DEPTH / 2 - SPAWN_Z_MARGIN,
        FLOOR_Y < SPAWN_Y - BALL_RADIUS,
        SPAWN_Y + BALL_RADIUS < HEIGHT / 2,
{
}

/// Everything the harness knows between two updates.
pub struct Simulation {
    /// The active mode.
    pub mode: PhysicsMode,
    /// Whether the simulation clock stands still.
    pub paused: bool,
    /// The live entities, all owned by the active mode.
    pub arena: EntityArena,
    /// The mesh and material shared by all balls.
    pub assets: BallAssets,
    pub ball_count: BallCount,
    pub balls_per_tick: BallsPerTick,
    pub clipped: ClippedBallCount,
    pub telemetry: Telemetry,
    pub spawn_timer: SpawnTimer,
    /// The camera that the render host shows.
    pub camera: CameraParams,
    /// Whether the light above the pool is on; only volumetric modes have one.
    pub top_light: bool,
}

/// Whether every entity of the sequence is owned by `mode`.
pub open spec fn all_owned_by(entities: Seq<SimulationEntity>, mode: PhysicsMode) -> bool {
    forall|i: int| 0 <= i < entities.len() ==> (#[trigger] entities[i]).owner == mode
}

/// Whether no entity of the sequence is owned by `mode`.
pub open spec fn none_owned_by(entities: Seq<SimulationEntity>, mode: PhysicsMode) -> bool {
    forall|i: int| 0 <= i < entities.len() ==> (#[trigger] entities[i]).owner != mode
}

impl Simulation {
    /// The parts are consistent, no entity has outlived the mode that
    /// created it, and the camera and the light are those of the mode's kind.
    pub open spec fn wf(&self) -> bool {
        &&& self.arena.wf()
        &&& self.spawn_timer.wf()
        &&& self.telemetry.wf()
        &&& all_owned_by(self.arena@, self.mode)
        &&& (self.camera is Perspective <==> self.mode.spec_is_3d())
        &&& self.top_light == self.mode.spec_is_3d()
    }

    /// The state right after `mode` was entered, apart from the arena.
    pub open spec fn entered(&self, mode: PhysicsMode) -> bool {
        &&& self.mode == mode
        &&& self.paused
        &&& self.ball_count.0 == 0
        &&& self.clipped.0 == 0
        &&& self.telemetry == Telemetry::spec_fresh()
        &&& self.top_light == mode.spec_is_3d()
    }

    /// Start the harness: the clock is paused, and the first mode of the
    /// cycle is entered with its camera and its boundary.
    pub fn startup(assets: BallAssets, window: Option<WindowSize>) -> (sim: Simulation)
        ensures
            sim.wf(),
            sim.entered(PhysicsMode::Avian2d),
            sim.assets == assets,
            sim.balls_per_tick.0 == 1,
            sim.spawn_timer == (SpawnTimer { interval: SPAWN_INTERVAL, elapsed: 0 }),
            sim.camera == spec_ortho_camera(window),
            sim.arena@ == wall_entities(PhysicsMode::Avian2d, 0),
            sim.arena.next_handle() == 3,
    {
        let mode = PhysicsMode::Avian2d;
        let mut arena = EntityArena::new();
        spawn_walls(&mut arena, mode);
        proof {
            assert(arena@ =~= wall_entities(mode, 0));
        }
        let (spawn_timer, ball_count, balls_per_tick) = crate::spawner::plugin();
        Simulation {
            mode,
            paused: true,
            arena,
            assets,
            ball_count,
            balls_per_tick,
            clipped: ClippedBallCount(0),
            telemetry: Telemetry::fresh(),
            spawn_timer,
            camera: enter_2d_camera(None, window),
            top_light: false,
        }
    }

    /// The active mode.
    pub fn current(&self) -> (mode: PhysicsMode)
        ensures
            mode == self.mode,
    {
        self.mode
    }

    /// Change to `new_mode`. Asking for the active mode does nothing.
    /// Otherwise, in this order: every entity of the outgoing mode is
    /// destroyed; the camera of the incoming mode is set up, the light
    /// above the pool switched to match, and the boundary built; the ball
    /// count, the clipped count and the milestones are cleared and the
    /// warm-up restarted; the clock is paused. The batch size and the spawn
    /// timer carry over. Returns the handles of the entities destroyed.
    pub fn request(&mut self, new_mode: PhysicsMode, window: Option<WindowSize>) -> (destroyed: Vec<
        u64,
    >)
        requires
            old(self).wf(),
            old(self).arena.next_handle() + 5 <= u64::MAX,
        ensures
            final(self).wf(),
            new_mode == old(self).mode ==> *final(self) == *old(self) && destroyed@.len() == 0,
            new_mode != old(self).mode ==> {
                &&& final(self).entered(new_mode)
                &&& destroyed@ == handles_of(old(self).arena@)
                &&& none_owned_by(final(self).arena@, old(self).mode)
                &&& final(self).arena@ == wall_entities(new_mode, old(self).arena.next_handle())
                &&& final(self).arena.next_handle() == old(self).arena.next_handle() + pool_walls(
                    new_mode,
                ).len()
                &&& final(self).camera == spec_camera_on_enter(
                    new_mode,
                    Some(old(self).camera),
                    window,
                )
                &&& final(self).balls_per_tick == old(self).balls_per_tick
                &&& final(self).spawn_timer == old(self).spawn_timer
                &&& final(self).assets == old(self).assets
            },
    {
        if new_mode == self.mode {
            return Vec::new();
        }
        let ghost before = self.arena@;
        let ghost outgoing = self.mode;
        let destroyed = self.arena.despawn_scope(self.mode);
        proof {
            lemma_filter_none(before, Selector::Scope(outgoing).kept());
            lemma_filter_all(before, Selector::Scope(outgoing).removed());
            assert(self.arena@ =~= Seq::<SimulationEntity>::empty());
        }
        self.mode = new_mode;
        if new_mode.is_3d() {
            self.camera = enter_3d_camera(Some(self.camera), window);
            self.top_light = true;
        } else {
            self.camera = enter_2d_camera(Some(self.camera), window);
            self.top_light = false;
        }
        spawn_walls(&mut self.arena, new_mode);
        self.ball_count = BallCount(0);
        self.clipped = ClippedBallCount(0);
        self.telemetry.reset();
        self.paused = true;
        proof {
            assert(self.arena@ =~= wall_entities(new_mode, old(self).arena.next_handle()));
        }
        destroyed
    }

    /// Apply the keys of one frame: pause or resume, change the batch size,
    /// and change the mode if one was asked for. Returns the handles of the
    /// entities that a mode change destroyed.
    pub fn handle_keys(&mut self, keys: &KeyPresses, window: Option<WindowSize>) -> (destroyed: Vec<
        u64,
    >)
        requires
            old(self).wf(),
            old(self).arena.next_handle() + 5 <= u64::MAX,
            keys.arrow_up ==> old(self).balls_per_tick.0 < usize::MAX,
        ensures
            final(self).wf(),
            final(self).balls_per_tick.0 == spec_balls_per_tick(*keys, old(self).balls_per_tick.0),
            final(self).spawn_timer == old(self).spawn_timer,
            match spec_mode_switch(*keys, old(self).mode) {
                Some(mode) => {
                    &&& final(self).entered(mode)
                    &&& destroyed@ == handles_of(old(self).arena@)
                    &&& final(self).arena@ == wall_entities(mode, old(self).arena.next_handle())
                },
                None => {
                    &&& final(self).mode == old(self).mode
                    &&& final(self).paused == (old(self).paused != keys.space)
                    &&& final(self).arena@ == old(self).arena@
                    &&& final(self).ball_count == old(self).ball_count
                    &&& final(self).clipped == old(self).clipped
                    &&& final(self).telemetry == old(self).telemetry
                    &&& final(self).camera == old(self).camera
                    &&& destroyed@.len() == 0
                },
            },
    {
        self.paused = toggle_pause(keys, self.paused);
        handle_balls_per_tick(keys, &mut self.balls_per_tick);
        match handle_mode_switch(keys, self.mode) {
            Some(mode) => self.request(mode, window),
            None => Vec::new(),
        }
    }

    /// The simulation time that an update covers: none while the clock is paused.
    pub open spec fn spec_clock_delta(&self, delta: u64) -> u64 {
        if self.paused {
            0
        } else {
            delta
        }
    }

    /// Let `delta` nanoseconds pass on the simulation clock, unless it is
    /// paused, and spawn the balls that are due under the active mode.
    /// Returns how many were spawned; they are the newest entities.
    pub fn spawn_balls(&mut self, delta: u64) -> (spawned: u64)
        requires
            old(self).wf(),
            old(self).ball_count.0 + old(self).spawn_timer.spec_ticks(
                old(self).spec_clock_delta(delta),
            ) * old(self).balls_per_tick.0 <= usize::MAX,
            old(self).arena.next_handle() + old(self).spawn_timer.spec_ticks(
                old(self).spec_clock_delta(delta),
            ) * old(self).balls_per_tick.0 <= u64::MAX,
        ensures
            final(self).wf(),
            spawned == old(self).spawn_timer.spec_ticks(old(self).spec_clock_delta(delta)) * old(
                self,
            ).balls_per_tick.0,
            final(self).spawn_timer == old(self).spawn_timer.spec_after(
                old(self).spec_clock_delta(delta),
            ),
            final(self).ball_count.0 == old(self).ball_count.0 + spawned,
            final(self).arena.next_handle() == old(self).arena.next_handle() + spawned,
            final(self).arena@.len() == old(self).arena@.len() + spawned,
            final(self).arena@.take(old(self).arena@.len() as int) == old(self).arena@,
            forall|k: int|
                old(self).arena@.len() <= k < final(self).arena@.len() ==> is_spawned_ball(
                    #[trigger] final(self).arena@[k],
                    (old(self).arena.next_handle() + (k - old(self).arena@.len())) as u64,
                    old(self).mode,
                    old(self).assets,
                ),
            final(self).mode == old(self).mode,
            final(self).paused == old(self).paused,
            final(self).clipped == old(self).clipped,
            final(self).telemetry == old(self).telemetry,
            final(self).camera == old(self).camera,
            final(self).balls_per_tick == old(self).balls_per_tick,
    {
        let elapsed = if self.paused {
            0
        } else {
            delta
        };
        let ghost before = self.arena@;
        let spawned = spawn_balls(
            &mut self.arena,
            &self.assets,
            elapsed,
            &mut self.spawn_timer,
            &mut self.ball_count,
            &self.balls_per_tick,
            self.mode,
        );
        proof {
            assert forall|i: int| 0 <= i < self.arena@.len() implies (
            #[trigger] self.arena@[i]).owner == self.mode by {
                if i < before.len() {
                    assert(self.arena@[i] == self.arena@.take(before.len() as int)[i]);
                }
            }
        }
        spawned
    }

    /// Remove the balls that were seen below the floor and count them as
    /// clipped. Returns the handles of the balls destroyed.
    pub fn detect_clipped_balls(&mut self, sightings: &Vec<BallSighting>) -> (reaped: Vec<u64>)
        requires
            old(self).wf(),
            old(self).clipped.0 + old(self).arena@.len() <= usize::MAX,
        ensures
            final(self).wf(),
            final(self).arena.next_handle() == old(self).arena.next_handle(),
            final(self).arena@ == old(self).arena@.filter(
                Selector::Sunk(sightings@, FLOOR_Y).kept(),
            ),
            reaped@ == handles_of(
                old(self).arena@.filter(Selector::Sunk(sightings@, FLOOR_Y).removed()),
            ),
            reaped@.len() + final(self).arena@.len() == old(self).arena@.len(),
            final(self).ball_count.0 == spec_count_after_reaping(
                old(self).ball_count.0,
                reaped@.len(),
            ),
            final(self).clipped.0 == old(self).clipped.0 + reaped@.len(),
            final(self).mode == old(self).mode,
            final(self).paused == old(self).paused,
            final(self).telemetry == old(self).telemetry,
            final(self).spawn_timer == old(self).spawn_timer,
            final(self).camera == old(self).camera,
            final(self).balls_per_tick == old(self).balls_per_tick,
    {
        let ghost before = self.arena@;
        let reaped = detect_clipped_balls(
            &mut self.arena,
            &mut self.ball_count,
            sightings,
            &mut self.clipped,
        );
        proof {
            let kept = Selector::Sunk(sightings@, FLOOR_Y).kept();
            assert forall|i: int| 0 <= i < self.arena@.len() implies (
            #[trigger] self.arena@[i]).owner == self.mode by {
                let entity = before.filter(kept)[i];
                assert(before.filter(kept).contains(entity));
                before.lemma_filter_contains_rev(kept, entity);
                let j = choose|j: int| 0 <= j < before.len() && before[j] == entity;
                assert(before[j].owner == self.mode);
            }
        }
        reaped
    }

    /// Process the frame-rate sample of one frame against the current ball count.
    pub fn update_fps_display(&mut self, delta: u64, fps: u64, fps_avg: u64)
        requires
            old(self).wf(),
        ensures
            final(self).wf(),
            final(self).telemetry == old(self).telemetry.spec_update(
                FrameSample { delta, fps, fps_avg, balls: old(self).ball_count.0 },
            ),
            old(self).telemetry.stats.frozen_in(final(self).telemetry.stats),
            final(self).mode == old(self).mode,
            final(self).paused == old(self).paused,
            final(self).arena@ == old(self).arena@,
            final(self).ball_count == old(self).ball_count,
            final(self).clipped == old(self).clipped,
            final(self).spawn_timer == old(self).spawn_timer,
            final(self).camera == old(self).camera,
    {
        self.telemetry.update(FrameSample { delta, fps, fps_avg, balls: self.ball_count.0 });
    }

    /// Refit the camera after the window was resized.
    pub fn fit_camera_to_pool(&mut self, resized: Option<WindowSize>)
        requires
            old(self).wf(),
        ensures
            final(self).wf(),
            final(self).camera == match resized {
                Some(size) => spec_camera_on_resize(old(self).camera, size),
                None => old(self).camera,
            },
            final(self).mode == old(self).mode,
            final(self).arena@ == old(self).arena@,
            final(self).ball_count == old(self).ball_count,
            final(self).clipped == old(self).clipped,
            final(self).telemetry == old(self).telemetry,
            final(self).spawn_timer == old(self).spawn_timer,
    {
        self.camera = fit_camera_to_pool(self.camera, resized);
    }
}

} // verus!
