//! Ball spawner: drops small balls from the top of the pool on a timer.
//!
//! The timer is driven by elapsed time, not by frames. An update that comes
//! late fires once for every interval that has passed since the last one, so
//! the number of balls spawned depends only on how much time went by.

use vstd::prelude::*;
use vstd::arithmetic::div_mod::{lemma_fundamental_div_mod, lemma_hoist_over_denominator};
use crate::backend::{ball_entity, spawn_ball, BallAssets, SimulationEntity, POOL_DEPTH};
use crate::geometry::{Color, Vec3};
use crate::mode::PhysicsMode;
use crate::scope::EntityArena;

verus! {

/// Time between ball spawns, in nanoseconds.
pub const SPAWN_INTERVAL: u64 = 50_000_000;

/// Ball radius.
pub const BALL_RADIUS: u64 = 6_000;

/// Horizontal spawn range: inside the walls, with a small margin.
pub const SPAWN_X_MIN: i64 = -945_000;

pub const SPAWN_X_MAX: i64 = 945_000;

/// Height at which balls appear, just below the top of the pool.
pub const SPAWN_Y: i64 = 530_000;

/// Margin kept between a spawning ball and the front and back walls of a volume.
pub const SPAWN_Z_MARGIN: u64 = 40_000;

/// Largest distance from the middle plane at which a ball spawns in a volume.
pub const SPAWN_Z_HALF: i64 = 920_000;

/// Ball colour, shared across all modes.
pub fn ball_color() -> (color: Color)
    ensures
        color == (Color { red: 900, green: 300, blue: 200, alpha: 1000 }),
{
    Color::srgb(900, 300, 200)
}

/// Number of balls alive since the current mode was entered.
#[derive(Clone, Copy, Debug, PartialEq, Eq, Structural)]
pub struct BallCount(pub usize);

impl Default for BallCount {
    fn default() -> (count: BallCount)
        ensures
            count.0 == 0,
    {
        BallCount(0)
    }
}

/// How many balls are spawned each time the timer fires. Never below one
/// once it is only changed through [`BallsPerTick::increase`] and
/// [`BallsPerTick::decrease`].
#[derive(Clone, Copy, Debug, PartialEq, Eq, Structural)]
pub struct BallsPerTick(pub usize);

impl Default for BallsPerTick {
    fn default() -> (per_tick: BallsPerTick)
        ensures
            per_tick.0 == 1,
    {
        BallsPerTick(1)
    }
}

impl BallsPerTick {
    /// One more ball per tick.
    pub fn increase(&mut self)
        requires
            old(self).0 < usize::MAX,
        ensures
            final(self).0 == old(self).0 + 1,
    {
        self.0 = self.0 + 1;
    }

    /// One ball fewer per tick, but never fewer than one.
    pub fn decrease(&mut self)
        ensures
            final(self).0 == if old(self).0 > 1 { old(self).0 - 1 } else { 1 },
            final(self).0 >= 1,
    {
        if self.0 > 1 {
            self.0 = self.0 - 1;
        } else {
            self.0 = 1;
        }
    }
}

/// A repeating timer: it accumulates elapsed time and fires once for every
/// full interval, keeping the remainder for the next update.
#[derive(Clone, Copy, Debug, PartialEq, Eq, Structural)]
pub struct SpawnTimer {
    /// Length of one interval, in nanoseconds; positive.
    pub interval: u64,
    /// Time accumulated towards the next firing; below `interval`.
    pub elapsed: u64,
}

impl SpawnTimer {
    /// The interval is positive and the accumulated time is short of it.
    pub open spec fn wf(self) -> bool {
        0 <= self.elapsed < self.interval
    }

    /// How often the timer fires when `delta` more nanoseconds pass.
    pub open spec fn spec_ticks(self, delta: u64) -> nat {
        ((self.elapsed + delta) / (self.interval as int)) as nat
    }

    /// The timer after `delta` more nanoseconds.
    pub open spec fn spec_after(self, delta: u64) -> SpawnTimer {
        SpawnTimer {
            interval: self.interval,
            elapsed: ((self.elapsed + delta) % (self.interval as int)) as u64,
        }
    }

    /// A timer with nothing accumulated.
    pub fn new(interval: u64) -> (timer: SpawnTimer)
        requires
            interval > 0,
        ensures
            timer.wf(),
            timer.interval == interval,
            timer.elapsed == 0,
    {
        SpawnTimer { interval, elapsed: 0 }
    }

    /// How often the timer would fire if `delta` more nanoseconds passed.
    pub fn ticks_due(&self, delta: u64) -> (ticks: u64)
        requires
            self.wf(),
        ensures
            ticks == self.spec_ticks(delta),
    {
        let total: u128 = self.elapsed as u128 + delta as u128;
        let ticks: u128 = total / (self.interval as u128);
        proof {
            lemma_ticks_fit(*self, delta);
        }
        ticks as u64
    }

    /// Let `delta` nanoseconds pass. Returns how often the timer fired: once
    /// for every full interval in the accumulated time, none of them dropped.
    pub fn tick(&mut self, delta: u64) -> (ticks: u64)
        requires
            old(self).wf(),
        ensures
            final(self).wf(),
            *final(self) == old(self).spec_after(delta),
            ticks == old(self).spec_ticks(delta),
            ticks * old(self).interval + final(self).elapsed == old(self).elapsed + delta,
    {
        let total: u128 = self.elapsed as u128 + delta as u128;
        let interval: u128 = self.interval as u128;
        let ticks: u128 = total / interval;
        let rest: u128 = total % interval;
        proof {
            lemma_ticks_fit(*self, delta);
            lemma_fundamental_div_mod(total as int, interval as int);
            assert(interval * ticks == ticks * interval) by (nonlinear_arith);
        }
        self.elapsed = rest as u64;
        ticks as u64
    }
}

/// The number of firings of one update always fits the counter that reports it.
pub proof fn lemma_ticks_fit(timer: SpawnTimer, delta: u64)
    requires
        timer.wf(),
    ensures
        timer.spec_ticks(delta) <= u64::MAX,
        timer.spec_after(delta).wf(),
{
    let total = timer.elapsed + delta;
    let interval = timer.interval as int;
    let ticks = total / interval;
    lemma_fundamental_div_mod(total, interval);
    assert(0 <= total % interval < interval) by (nonlinear_arith)
        requires
            interval > 0,
            total >= 0,
    ;
    assert(ticks <= u64::MAX) by (nonlinear_arith)
        requires
            interval * ticks <= total,
            total <= interval - 1 + u64::MAX,
            interval >= 1,
    ;
    assert(ticks >= 0) by (nonlinear_arith)
        requires
            ticks == total / interval,
            interval > 0,
            total >= 0,
    ;
}

/// What the spawner starts with: a timer of the spawn interval with nothing
/// accumulated, no ball alive, and one ball per tick.
pub fn plugin() -> (start: (SpawnTimer, BallCount, BallsPerTick))
    ensures
        start.0 == (SpawnTimer { interval: SPAWN_INTERVAL, elapsed: 0 }),
        start.0.wf(),
        start.1.0 == 0,
        start.2.0 == 1,
{
    (SpawnTimer::new(SPAWN_INTERVAL), BallCount(0), BallsPerTick(1))
}

/// Where a ball may appear under `mode`: anywhere across the interior width
/// at the drop height, and across the interior depth in a volume only.
pub open spec fn valid_spawn_position(mode: PhysicsMode, position: Vec3) -> bool {
    &&& SPAWN_X_MIN <= position.x <= SPAWN_X_MAX
    &&& position.y == SPAWN_Y
    &&& if mode.spec_is_3d() {
        -SPAWN_Z_HALF <= position.z <= SPAWN_Z_HALF
    } else {
        position.z == 0
    }
}

/// The position of a ball dropped at `x`, with depth `z` in a volume and none in the plane.
pub open spec fn spec_spawn_position(mode: PhysicsMode, x: i64, z: i64) -> Vec3 {
    Vec3 { x, y: SPAWN_Y, z: if mode.spec_is_3d() { z } else { 0 } }
}

/// Whether `entity` is a ball as the spawner makes it under `mode`, with the given handle.
pub open spec fn is_spawned_ball(
    entity: SimulationEntity,
    handle: u64,
    mode: PhysicsMode,
    assets: BallAssets,
) -> bool {
    &&& entity == ball_entity(handle, mode, entity.position, BALL_RADIUS, assets)
    &&& valid_spawn_position(mode, entity.position)
}

/// Draws an integer from the inclusive range with `rand::rng().random_range(low..=high)`.
/// The generator is seeded by the operating system, so only the bounds are
/// claimed: the result lies in the range. An empty range makes the call
/// panic and is excluded.
#[verifier::external_body]
fn random_in_range(low: i64, high: i64) -> (value: i64)
    requires
        low <= high,
    ensures
        low <= value <= high,
{
    rand::Rng::random_range(&mut rand::rng(), low..=high)
}

/// The position of a ball dropped at horizontal coordinate `x`; the depth
/// `z` counts in a volume and is ignored in the plane.
pub fn spawn_position(mode: PhysicsMode, x: i64, z: i64) -> (position: Vec3)
    ensures
        position == spec_spawn_position(mode, x, z),
        SPAWN_X_MIN <= x <= SPAWN_X_MAX && -SPAWN_Z_HALF <= z <= SPAWN_Z_HALF
            ==> valid_spawn_position(mode, position),
{
    let depth: i64 = if mode.is_3d() {
        z
    } else {
        0
    };
    Vec3::new(x, SPAWN_Y, depth)
}

/// Drop one ball at the given coordinates and count it.
pub fn drop_ball(
    arena: &mut EntityArena,
    assets: &BallAssets,
    ball_count: &mut BallCount,
    mode: PhysicsMode,
    x: i64,
    z: i64,
) -> (handle: u64)
    requires
        old(arena).wf(),
        old(arena).next_handle() < u64::MAX,
        old(ball_count).0 < usize::MAX,
    ensures
        final(arena).wf(),
        handle == old(arena).next_handle(),
        final(arena).next_handle() == handle + 1,
        final(arena)@ == old(arena)@.push(
            ball_entity(handle, mode, spec_spawn_position(mode, x, z), BALL_RADIUS, *assets),
        ),
        final(ball_count).0 == old(ball_count).0 + 1,
{
    let position = spawn_position(mode, x, z);
    let handle = spawn_ball(arena, mode, position, BALL_RADIUS, assets);
    ball_count.0 = ball_count.0 + 1;
    handle
}

/// Let `delta` nanoseconds pass and spawn what is due: for every interval
/// that has elapsed, `balls_per_tick` balls, each at a random place across
/// the interior width (and depth, in a volume) at the drop height. Every
/// ball is owned by `mode` and counted. Returns how many balls were spawned;
/// they are the newest entities of the arena.
pub fn spawn_balls(
    arena: &mut EntityArena,
    assets: &BallAssets,
    delta: u64,
    timer: &mut SpawnTimer,
    ball_count: &mut BallCount,
    balls_per_tick: &BallsPerTick,
    mode: PhysicsMode,
) -> (spawned: u64)
    requires
        old(arena).wf(),
        old(timer).wf(),
        old(ball_count).0 + old(timer).spec_ticks(delta) * balls_per_tick.0 <= usize::MAX,
        old(arena).next_handle() + old(timer).spec_ticks(delta) * balls_per_tick.0 <= u64::MAX,
    ensures
        final(arena).wf(),
        final(timer).wf(),
        *final(timer) == old(timer).spec_after(delta),
        spawned == old(timer).spec_ticks(delta) * balls_per_tick.0,
        final(ball_count).0 == old(ball_count).0 + spawned,
        final(arena).next_handle() == old(arena).next_handle() + spawned,
        final(arena)@.len() == old(arena)@.len() + spawned,
        final(arena)@.take(old(arena)@.len() as int) == old(arena)@,
        forall|k: int|
            old(arena)@.len() <= k < final(arena)@.len() ==> is_spawned_ball(
                #[trigger] final(arena)@[k],
                (old(arena).next_handle() + (k - old(arena)@.len())) as u64,
                mode,
                *assets,
            ),
{
    let ticks = timer.tick(delta);
    let per_tick = balls_per_tick.0;
    let half: i64 = (POOL_DEPTH / 2 - SPAWN_Z_MARGIN) as i64;
    assert(half == SPAWN_Z_HALF);
    let ghost before = arena@;
    let ghost first = arena.next_handle();
    let ghost goal: int = ticks * per_tick;
    let mut spawned: u64 = 0;
    let mut tick: u64 = 0;
    proof {
        assert(arena@.take(before.len() as int) =~= before);
    }
    while tick < ticks
        invariant
            tick <= ticks,
            goal == ticks * per_tick,
            half == SPAWN_Z_HALF,
            spawned == tick * per_tick,
            arena.wf(),
            old(ball_count).0 + goal <= usize::MAX,
            first + goal <= u64::MAX,
            ball_count.0 == old(ball_count).0 + spawned,
            arena.next_handle() == first + spawned,
            arena@.len() == before.len() + spawned,
            arena@.take(before.len() as int) == before,
            forall|k: int|
                before.len() <= k < arena@.len() ==> is_spawned_ball(
                    #[trigger] arena@[k],
                    (first + (k - before.len())) as u64,
                    mode,
                    *assets,
                ),
        decreases ticks - tick,
    {
        let mut ball: usize = 0;
        proof {
            assert(tick * per_tick + per_tick <= ticks * per_tick) by (nonlinear_arith)
                requires
                    tick < ticks,
                    per_tick >= 0,
            ;
        }
        while ball < per_tick
            invariant
                ball <= per_tick,
                tick < ticks,
                goal == ticks * per_tick,
                half == SPAWN_Z_HALF,
                tick * per_tick + per_tick <= goal,
                spawned == tick * per_tick + ball,
                arena.wf(),
                old(ball_count).0 + goal <= usize::MAX,
                first + goal <= u64::MAX,
                ball_count.0 == old(ball_count).0 + spawned,
                arena.next_handle() == first + spawned,
                arena@.len() == before.len() + spawned,
                arena@.take(before.len() as int) == before,
                forall|k: int|
                    before.len() <= k < arena@.len() ==> is_spawned_ball(
                        #[trigger] arena@[k],
                        (first + (k - before.len())) as u64,
                        mode,
                        *assets,
                    ),
            decreases per_tick - ball,
        {
            let x = random_in_range(SPAWN_X_MIN, SPAWN_X_MAX);
            let z = if mode.is_3d() {
                random_in_range(-half, half)
            } else {
                0
            };
            let ghost earlier = arena@;
            drop_ball(arena, assets, ball_count, mode, x, z);
            proof {
                assert(arena@.take(before.len() as int) =~= earlier.take(before.len() as int));
                assert forall|k: int| before.len() <= k < arena@.len() implies is_spawned_ball(
                    #[trigger] arena@[k],
                    (first + (k - before.len())) as u64,
                    mode,
                    *assets,
                ) by {
                    if k < earlier.len() {
                        assert(arena@[k] == earlier[k]);
                    }
                }
            }
            spawned = spawned + 1;
            ball = ball + 1;
        }
        proof {
            assert((tick + 1) * per_tick == tick * per_tick + per_tick) by (nonlinear_arith);
        }
        tick = tick + 1;
    }
    spawned
}

/// The firings of a run of updates: the timer ticks through `deltas` in order.
pub open spec fn ticks_over(timer: SpawnTimer, deltas: Seq<u64>) -> nat
    decreases deltas.len(),
{
    if deltas.len() == 0 {
        0
    } else {
        timer.spec_ticks(deltas[0]) + ticks_over(timer.spec_after(deltas[0]), deltas.drop_first())
    }
}

/// The timer at the end of a run of updates.
pub open spec fn timer_after(timer: SpawnTimer, deltas: Seq<u64>) -> SpawnTimer
    decreases deltas.len(),
{
    if deltas.len() == 0 {
        timer
    } else {
        timer_after(timer.spec_after(deltas[0]), deltas.drop_first())
    }
}

/// The time that a run of updates covers.
pub open spec fn total_time(deltas: Seq<u64>) -> nat
    decreases deltas.len(),
{
    if deltas.len() == 0 {
        0
    } else {
        deltas[0] as nat + total_time(deltas.drop_first())
    }
}

/// However the elapsed time is cut into updates, the timer fires once for
/// every full interval of the total: the firings of a run add up to the
/// accumulated time divided by the interval, rounded down, and the
/// remainder stays on the timer.
pub proof fn lemma_ticks_depend_on_total_time(timer: SpawnTimer, deltas: Seq<u64>)
    requires
        timer.wf(),
    ensures
        ticks_over(timer, deltas) == (timer.elapsed + total_time(deltas)) / (timer.interval as int),
        timer_after(timer, deltas).wf(),
        timer_after(timer, deltas).interval == timer.interval,
        timer_after(timer, deltas).elapsed == (timer.elapsed + total_time(deltas)) % (
        timer.interval as int),
    decreases deltas.len(),
{
    let interval = timer.interval as int;
    if deltas.len() == 0 {
        assert(timer.elapsed as int / interval == 0 && timer.elapsed as int % interval
            == timer.elapsed) by (nonlinear_arith)
            requires
                0 <= timer.elapsed < interval,
        ;
    } else {
        let first = deltas[0];
        let rest = deltas.drop_first();
        let next = timer.spec_after(first);
        lemma_ticks_fit(timer, first);
        lemma_ticks_depend_on_total_time(next, rest);
        let a = timer.elapsed + first;
        let b = total_time(rest) as int;
        let q = a / interval;
        let r = a % interval;
        lemma_fundamental_div_mod(a, interval);
        assert(q * interval == interval * q) by (nonlinear_arith);
        // (r + b) / interval + q == (r + b + q * interval) / interval
        lemma_hoist_over_denominator(r + b, q, interval as nat);
        assert(q >= 0) by (nonlinear_arith)
            requires
                q == a / interval,
                a >= 0,
                interval > 0,
        ;
        assert((r + b + q * interval) % interval == (r + b) % interval) by {
            vstd::arithmetic::div_mod::lemma_mod_multiples_vanish(q, r + b, interval);
        }
    }
}

/// The balls spawned by a run of updates with a constant batch size: what
/// [`spawn_balls`] reports for each update, added up.
pub open spec fn spawned_over(timer: SpawnTimer, deltas: Seq<u64>, balls_per_tick: nat) -> nat
    decreases deltas.len(),
{
    if deltas.len() == 0 {
        0
    } else {
        timer.spec_ticks(deltas[0]) * balls_per_tick + spawned_over(
            timer.spec_after(deltas[0]),
            deltas.drop_first(),
            balls_per_tick,
        )
    }
}

/// The balls of a run are the firings of the run times the batch size.
pub proof fn lemma_spawned_is_ticks_times_batch(
    timer: SpawnTimer,
    deltas: Seq<u64>,
    balls_per_tick: nat,
)
    ensures
        spawned_over(timer, deltas, balls_per_tick) == ticks_over(timer, deltas) * balls_per_tick,
    decreases deltas.len(),
{
    if deltas.len() > 0 {
        let first = timer.spec_ticks(deltas[0]);
        let rest = ticks_over(timer.spec_after(deltas[0]), deltas.drop_first());
        lemma_spawned_is_ticks_times_batch(
            timer.spec_after(deltas[0]),
            deltas.drop_first(),
            balls_per_tick,
        );
        assert((first + rest) * balls_per_tick == first * balls_per_tick + rest * balls_per_tick)
            by (nonlinear_arith);
        assert(ticks_over(timer, deltas) == first + rest);
    } else {
        assert(ticks_over(timer, deltas) == 0);
        assert(0 * balls_per_tick == 0) by (nonlinear_arith);
    }
}

/// With a constant number of balls per tick, a run of updates that starts
/// on a timer with nothing accumulated and covers the time `T` spawns
/// exactly `floor(T / interval)` batches of that size, however `T` is cut
/// into updates.
pub proof fn lemma_spawn_rate_is_time_driven(
    interval: u64,
    deltas: Seq<u64>,
    balls_per_tick: nat,
)
    requires
        interval > 0,
        balls_per_tick >= 1,
    ensures
        spawned_over(SpawnTimer { interval, elapsed: 0 }, deltas, balls_per_tick) == (total_time(
            deltas,
        ) / (interval as nat)) * balls_per_tick,
{
    let timer = SpawnTimer { interval, elapsed: 0 };
    lemma_ticks_depend_on_total_time(timer, deltas);
    lemma_spawned_is_ticks_times_batch(timer, deltas, balls_per_tick);
}

} // verus!
