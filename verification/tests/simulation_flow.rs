use physics_bench::backend::{BallAssets, Role};
use physics_bench::camera::{CameraParams, Ratio, RationalVec3};
use physics_bench::geometry::Vec3;
use physics_bench::mode::PhysicsMode;
use physics_bench::scope::{BallSighting, EntityArena};
use physics_bench::simulation::{
    detect_clipped_balls, enter_2d_camera, enter_3d_camera, fit_camera_to_pool,
    handle_balls_per_tick, handle_mode_switch, toggle_pause, ClippedBallCount, KeyPresses,
    Simulation, WindowSize, FLOOR_Y,
};
use physics_bench::spawner::{drop_ball, BallCount, BallsPerTick, SpawnTimer};
use physics_bench::telemetry::{PerfStats, Telemetry};

const ASSETS: BallAssets = BallAssets { mesh2d: 1, mat2d: 2, mesh3d: 3, mat3d: 4 };
const WINDOW: Option<WindowSize> = Some(WindowSize { width: 960, height: 540 });
const MS: u64 = 1_000_000;
const NO_KEYS: KeyPresses = KeyPresses {
    digit1: false,
    digit2: false,
    digit3: false,
    digit4: false,
    enter: false,
    space: false,
    arrow_up: false,
    arrow_down: false,
};

#[test]
fn startup_enters_the_first_mode_paused() {
    let sim = Simulation::startup(ASSETS, WINDOW);
    assert_eq!(sim.current(), PhysicsMode::Avian2d);
    assert!(sim.paused);
    assert_eq!(sim.ball_count.0, 0);
    assert_eq!(sim.clipped.0, 0);
    assert_eq!(sim.balls_per_tick.0, 1);
    assert_eq!(sim.telemetry, Telemetry::fresh());
    assert_eq!(sim.spawn_timer, SpawnTimer { interval: 50 * MS, elapsed: 0 });
    assert_eq!(sim.camera, CameraParams::Orthographic { scale: Ratio { num: 1920, den: 960 } });
    assert!(!sim.top_light);
    assert_eq!(sim.arena.len(), 3);
    assert_eq!(sim.arena.count_scope(PhysicsMode::Avian2d), 3);
}

#[test]
fn startup_without_a_window_uses_the_default_scale() {
    let sim = Simulation::startup(ASSETS, None);
    assert_eq!(sim.camera, CameraParams::Orthographic { scale: Ratio { num: 2, den: 1 } });
    let sim = Simulation::startup(ASSETS, Some(WindowSize { width: 0, height: 0 }));
    assert_eq!(sim.camera, CameraParams::Orthographic { scale: Ratio { num: 2, den: 1 } });
}

#[test]
fn paused_clock_spawns_nothing() {
    let mut sim = Simulation::startup(ASSETS, WINDOW);
    assert_eq!(sim.spawn_balls(500 * MS), 0);
    assert_eq!(sim.ball_count.0, 0);
    assert_eq!(sim.spawn_timer.elapsed, 0);
    sim.paused = false;
    assert_eq!(sim.spawn_balls(500 * MS), 10);
    assert_eq!(sim.ball_count.0, 10);
    assert_eq!(sim.arena.len(), 13);
}

#[test]
fn ball_falling_through_the_floor_is_reaped() {
    let mut arena = EntityArena::new();
    let mut count = BallCount::default();
    let mut clipped = ClippedBallCount::default();
    let handle = drop_ball(&mut arena, &ASSETS, &mut count, PhysicsMode::Avian2d, 0, 0);
    assert_eq!(arena.entities()[0].position.y, 530_000);
    assert_eq!(count.0, 1);
    // Still above the floor: nothing happens.
    let falling = vec![BallSighting { handle, y: -300_000 }];
    assert!(detect_clipped_balls(&mut arena, &mut count, &falling, &mut clipped).is_empty());
    assert_eq!((count.0, clipped.0, arena.len()), (1, 0, 1));
    // Exactly on the floor line: not below it.
    let on_line = vec![BallSighting { handle, y: -540_000 }];
    assert!(detect_clipped_balls(&mut arena, &mut count, &on_line, &mut clipped).is_empty());
    assert_eq!((count.0, clipped.0, arena.len()), (1, 0, 1));
    // Below the floor: destroyed in the same update.
    let below = vec![BallSighting { handle, y: -541_000 }];
    let reaped = detect_clipped_balls(&mut arena, &mut count, &below, &mut clipped);
    assert_eq!(reaped, vec![handle]);
    assert_eq!((count.0, clipped.0, arena.len()), (0, 1, 0));
    assert_eq!(FLOOR_Y, -540_000);
}

#[test]
fn reaping_tolerates_balls_that_are_already_gone() {
    let mut sim = Simulation::startup(ASSETS, WINDOW);
    sim.paused = false;
    sim.balls_per_tick = BallsPerTick(2);
    assert_eq!(sim.spawn_balls(100 * MS), 4);
    let handles: Vec<u64> = sim
        .arena
        .entities()
        .iter()
        .filter(|e| e.role == Role::Ball)
        .map(|e| e.handle)
        .collect();
    assert_eq!(handles, vec![3, 4, 5, 6]);
    assert!(sim.arena.despawn_ball(4));
    let sightings = vec![
        BallSighting { handle: 3, y: -540_001 },
        BallSighting { handle: 4, y: -900_000 },
        BallSighting { handle: 5, y: 0 },
        BallSighting { handle: 3, y: -540_002 },
        BallSighting { handle: 0, y: -900_000 },
    ];
    let reaped = sim.detect_clipped_balls(&sightings);
    assert_eq!(reaped, vec![3]);
    assert_eq!(sim.clipped.0, 1);
    assert_eq!(sim.ball_count.0, 3);
    assert_eq!(sim.arena.len(), 5);
    assert!(sim.arena.contains(0));
    assert!(sim.arena.contains(5));
    assert!(!sim.arena.contains(3));
}

#[test]
fn ball_count_stops_at_zero() {
    let mut arena = EntityArena::new();
    let mut count = BallCount::default();
    let mut clipped = ClippedBallCount(9);
    drop_ball(&mut arena, &ASSETS, &mut count, PhysicsMode::Rapier3d, 0, 0);
    drop_ball(&mut arena, &ASSETS, &mut count, PhysicsMode::Rapier3d, 0, 0);
    count = BallCount(1);
    let sightings =
        vec![BallSighting { handle: 0, y: i64::MIN }, BallSighting { handle: 1, y: -540_001 }];
    let reaped = detect_clipped_balls(&mut arena, &mut count, &sightings, &mut clipped);
    assert_eq!(reaped, vec![0, 1]);
    assert_eq!(count.0, 0);
    assert_eq!(clipped.0, 11);
}

#[test]
fn transition_tears_down_the_old_mode_and_sets_up_the_new() {
    let mut sim = Simulation::startup(ASSETS, WINDOW);
    sim.paused = false;
    sim.balls_per_tick = BallsPerTick(3);
    assert_eq!(sim.spawn_balls(1_020 * MS), 60);
    sim.update_fps_display(2_000 * MS, 10_000, 10_000);
    sim.detect_clipped_balls(&vec![BallSighting { handle: 3, y: -600_000 }]);
    assert_eq!(sim.ball_count.0, 59);
    assert_eq!(sim.clipped.0, 1);
    assert_eq!(sim.telemetry.stats.first_below_15, Some(60));
    let alive: Vec<u64> = sim.arena.entities().iter().map(|e| e.handle).collect();

    let destroyed = sim.request(PhysicsMode::Avian3d, WINDOW);

    assert_eq!(destroyed, alive);
    assert_eq!(sim.current(), PhysicsMode::Avian3d);
    assert_eq!(sim.arena.count_scope(PhysicsMode::Avian2d), 0);
    assert_eq!(sim.ball_count.0, 0);
    assert_eq!(sim.clipped.0, 0);
    assert_eq!(sim.telemetry.stats, PerfStats::default());
    assert_eq!(sim.telemetry, Telemetry::fresh());
    assert!(sim.paused);
    assert!(sim.top_light);
    // The boundary of the new mode exists exactly once.
    assert_eq!(sim.arena.len(), 5);
    for (i, wall) in sim.arena.entities().iter().enumerate() {
        assert_eq!(wall.owner, PhysicsMode::Avian3d);
        assert_eq!(wall.role, Role::Wall);
        assert_eq!(wall.handle, 63 + i as u64);
    }
    // What carries over.
    assert_eq!(sim.balls_per_tick.0, 3);
    assert_eq!(sim.spawn_timer.elapsed, 20 * MS);
    assert_eq!(
        sim.camera,
        CameraParams::Perspective {
            position: RationalVec3 { x: 0, y: 3000 * 960, z: 3200 * 960, den: 960 },
            look_at: Vec3 { x: 0, y: -200, z: 0 },
        }
    );
}

#[test]
fn backend_one_to_backend_two_leaves_nothing_behind() {
    let mut sim = Simulation::startup(ASSETS, WINDOW);
    sim.paused = false;
    sim.spawn_balls(250 * MS);
    assert_eq!(sim.ball_count.0, 5);
    sim.request(PhysicsMode::Avian2d.next(), WINDOW);
    assert_eq!(sim.arena.count_scope(PhysicsMode::Avian2d), 0);
    assert_eq!(sim.ball_count.0, 0);
    assert_eq!(sim.clipped.0, 0);
    assert_eq!(sim.telemetry.stats.first_below_50, None);
    assert_eq!(sim.telemetry.stats.avg_below_50, None);
    assert_eq!(sim.telemetry.stats.first_below_15, None);
    assert_eq!(sim.telemetry.stats.avg_below_15, None);
    assert_eq!(sim.arena.count_scope(PhysicsMode::Avian3d), 5);
    assert_eq!(sim.arena.len(), 5);
}

#[test]
fn requesting_the_active_mode_changes_nothing() {
    let mut sim = Simulation::startup(ASSETS, WINDOW);
    sim.paused = false;
    sim.spawn_balls(250 * MS);
    sim.update_fps_display(1_500 * MS, 40_000, 0);
    let before: Vec<u64> = sim.arena.entities().iter().map(|e| e.handle).collect();
    let destroyed = sim.request(PhysicsMode::Avian2d, WINDOW);
    assert!(destroyed.is_empty());
    let after: Vec<u64> = sim.arena.entities().iter().map(|e| e.handle).collect();
    assert_eq!(before, after);
    assert_eq!(sim.ball_count.0, 5);
    assert!(!sim.paused);
    assert_eq!(sim.telemetry.stats.first_below_50, Some(5));
}

#[test]
fn camera_is_kept_between_modes_of_the_same_kind() {
    let mut sim = Simulation::startup(ASSETS, WINDOW);
    sim.fit_camera_to_pool(Some(WindowSize { width: 480, height: 540 }));
    let planar = sim.camera;
    assert_eq!(planar, CameraParams::Orthographic { scale: Ratio { num: 1920, den: 480 } });
    sim.request(PhysicsMode::Rapier2d, WINDOW);
    assert_eq!(sim.camera, planar);
    assert!(!sim.top_light);
    sim.request(PhysicsMode::Rapier3d, None);
    let spatial = sim.camera;
    assert_eq!(
        spatial,
        CameraParams::Perspective {
            position: RationalVec3 { x: 0, y: 3000, z: 3200, den: 1 },
            look_at: Vec3 { x: 0, y: -200, z: 0 },
        }
    );
    assert!(sim.top_light);
    sim.request(PhysicsMode::Avian3d, WINDOW);
    assert_eq!(sim.camera, spatial);
    assert!(sim.top_light);
    sim.request(PhysicsMode::Avian2d, WINDOW);
    assert_eq!(sim.camera, CameraParams::Orthographic { scale: Ratio { num: 1920, den: 960 } });
    assert!(!sim.top_light);
}

#[test]
fn entering_cameras() {
    let ortho = CameraParams::Orthographic { scale: Ratio { num: 7, den: 3 } };
    let persp = CameraParams::Perspective {
        position: RationalVec3 { x: 0, y: 1, z: 2, den: 3 },
        look_at: Vec3 { x: 0, y: -200, z: 0 },
    };
    assert_eq!(enter_2d_camera(Some(ortho), WINDOW), ortho);
    assert_eq!(enter_3d_camera(Some(persp), WINDOW), persp);
    assert_eq!(
        enter_2d_camera(Some(persp), Some(WindowSize { width: 1920, height: 1080 })),
        CameraParams::Orthographic { scale: Ratio { num: 1920, den: 1920 } }
    );
    assert_eq!(
        enter_2d_camera(None, None),
        CameraParams::Orthographic { scale: Ratio { num: 2, den: 1 } }
    );
    assert_eq!(
        enter_3d_camera(Some(ortho), Some(WindowSize { width: 480, height: 270 })),
        CameraParams::Perspective {
            position: RationalVec3 { x: 0, y: -200 * 480 + 3200 * 960, z: 3200 * 960, den: 480 },
            look_at: Vec3 { x: 0, y: -200, z: 0 },
        }
    );
}

#[test]
fn resizing_refits_the_camera() {
    let ortho = CameraParams::Orthographic { scale: Ratio { num: 2, den: 1 } };
    assert_eq!(fit_camera_to_pool(ortho, None), ortho);
    assert_eq!(fit_camera_to_pool(ortho, Some(WindowSize { width: 0, height: 10 })), ortho);
    assert_eq!(
        fit_camera_to_pool(ortho, Some(WindowSize { width: 3840, height: 540 })),
        CameraParams::Orthographic { scale: Ratio { num: 1080, den: 540 } }
    );
    let persp = CameraParams::Perspective {
        position: RationalVec3 { x: 0, y: 3000, z: 3200, den: 1 },
        look_at: Vec3 { x: 0, y: -200, z: 0 },
    };
    assert_eq!(fit_camera_to_pool(persp, Some(WindowSize { width: 10, height: 0 })), persp);
    assert_eq!(
        fit_camera_to_pool(persp, Some(WindowSize { width: 1920, height: 1080 })),
        CameraParams::Perspective {
            position: RationalVec3 { x: 0, y: -200 * 1920 + 3200 * 960, z: 3200 * 960, den: 1920 },
            look_at: Vec3 { x: 0, y: -200, z: 0 },
        }
    );
}

#[test]
fn digits_select_and_enter_cycles() {
    let current = PhysicsMode::Avian3d;
    assert_eq!(handle_mode_switch(&NO_KEYS, current), None);
    assert_eq!(
        handle_mode_switch(&KeyPresses { digit1: true, ..NO_KEYS }, current),
        Some(PhysicsMode::Avian2d)
    );
    assert_eq!(handle_mode_switch(&KeyPresses { digit2: true, ..NO_KEYS }, current), None);
    assert_eq!(
        handle_mode_switch(&KeyPresses { digit3: true, ..NO_KEYS }, current),
        Some(PhysicsMode::Rapier2d)
    );
    assert_eq!(
        handle_mode_switch(&KeyPresses { digit4: true, ..NO_KEYS }, current),
        Some(PhysicsMode::Rapier3d)
    );
    assert_eq!(
        handle_mode_switch(&KeyPresses { enter: true, ..NO_KEYS }, current),
        Some(PhysicsMode::Rapier2d)
    );
    assert_eq!(
        handle_mode_switch(&KeyPresses { enter: true, ..NO_KEYS }, PhysicsMode::Rapier3d),
        Some(PhysicsMode::Avian2d)
    );
}

#[test]
fn earlier_digit_wins_and_digits_win_over_enter() {
    let current = PhysicsMode::Rapier2d;
    assert_eq!(
        handle_mode_switch(&KeyPresses { digit1: true, digit4: true, ..NO_KEYS }, current),
        Some(PhysicsMode::Avian2d)
    );
    // The selected mode is the active one: no change, Enter is not consulted.
    assert_eq!(
        handle_mode_switch(&KeyPresses { digit3: true, enter: true, ..NO_KEYS }, current),
        None
    );
}

#[test]
fn arrows_change_the_batch_size() {
    let mut per_tick = BallsPerTick::default();
    let up = KeyPresses { arrow_up: true, ..NO_KEYS };
    let down = KeyPresses { arrow_down: true, ..NO_KEYS };
    assert!(handle_balls_per_tick(&up, &mut per_tick));
    assert!(handle_balls_per_tick(&up, &mut per_tick));
    assert!(handle_balls_per_tick(&up, &mut per_tick));
    assert!(handle_balls_per_tick(&down, &mut per_tick));
    assert_eq!(per_tick.0, 3);
    assert!(!handle_balls_per_tick(&NO_KEYS, &mut per_tick));
    assert_eq!(per_tick.0, 3);
    // Up wins when both went down.
    assert!(handle_balls_per_tick(&KeyPresses { arrow_up: true, arrow_down: true, ..NO_KEYS }, &mut per_tick));
    assert_eq!(per_tick.0, 4);
    let mut one = BallsPerTick(1);
    assert!(handle_balls_per_tick(&down, &mut one));
    assert_eq!(one.0, 1);
}

#[test]
fn space_toggles_the_clock() {
    let space = KeyPresses { space: true, ..NO_KEYS };
    assert!(!toggle_pause(&space, true));
    assert!(toggle_pause(&space, false));
    assert!(toggle_pause(&NO_KEYS, true));
    assert!(!toggle_pause(&NO_KEYS, false));
}

#[test]
fn keys_of_one_frame_drive_the_simulation() {
    let mut sim = Simulation::startup(ASSETS, WINDOW);
    let destroyed = sim.handle_keys(&KeyPresses { space: true, arrow_up: true, ..NO_KEYS }, WINDOW);
    assert!(destroyed.is_empty());
    assert!(!sim.paused);
    assert_eq!(sim.balls_per_tick.0, 2);
    sim.spawn_balls(50 * MS);
    assert_eq!(sim.ball_count.0, 2);
    let destroyed = sim.handle_keys(&KeyPresses { enter: true, ..NO_KEYS }, WINDOW);
    assert_eq!(destroyed, vec![0, 1, 2, 3, 4]);
    assert_eq!(sim.current(), PhysicsMode::Avian3d);
    assert!(sim.paused);
    assert_eq!(sim.ball_count.0, 0);
    assert_eq!(sim.balls_per_tick.0, 2);
    // A key press that selects the active mode is not a transition.
    sim.paused = false;
    let destroyed = sim.handle_keys(&KeyPresses { digit2: true, ..NO_KEYS }, WINDOW);
    assert!(destroyed.is_empty());
    assert!(!sim.paused);
}

#[test]
fn milestones_use_the_ball_count_of_the_frame() {
    let mut sim = Simulation::startup(ASSETS, WINDOW);
    sim.paused = false;
    sim.spawn_balls(400 * MS);
    sim.update_fps_display(400 * MS, 30_000, 58_000);
    assert_eq!(sim.telemetry.stats, PerfStats::default());
    sim.spawn_balls(600 * MS);
    sim.update_fps_display(600 * MS, 30_000, 58_000);
    assert_eq!(sim.telemetry.stats.first_below_50, Some(20));
    assert_eq!(sim.telemetry.stats.avg_below_50, None);
    sim.spawn_balls(50 * MS);
    sim.update_fps_display(50 * MS, 12_000, 49_000);
    assert_eq!(sim.telemetry.stats.first_below_50, Some(20));
    assert_eq!(sim.telemetry.stats.avg_below_50, Some(21));
    assert_eq!(sim.telemetry.stats.first_below_15, Some(21));
    assert_eq!(sim.telemetry.stats.avg_below_15, None);
}
