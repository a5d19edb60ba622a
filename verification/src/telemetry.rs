//! Performance milestones: the ball count at which the frame rate first
//! falls below each threshold after a mode was entered.
//!
//! Frame rates are integers in thousandths of a frame per second. A rate of
//! zero means that nothing has been measured yet and never counts as a
//! crossing. Nothing is recorded during the warm-up that follows entering a
//! mode, so that the spike of the first frames does not register.

use vstd::prelude::*;

verus! {

/// Delay after entering a mode before milestones are recorded, in nanoseconds.
pub const PERF_WARMUP: u64 = 1_000_000_000;

/// The upper threshold: fifty frames per second.
pub const FPS_HIGH: u64 = 50_000;

/// The lower threshold: fifteen frames per second.
pub const FPS_LOW: u64 = 15_000;

/// A timer that runs once: it accumulates time up to its duration and then stands still.
#[derive(Clone, Copy, Debug, PartialEq, Eq, Structural)]
pub struct WarmupTimer {
    /// Length of the warm-up, in nanoseconds.
    pub duration: u64,
    /// Time accumulated so far, never more than `duration`.
    pub elapsed: u64,
}

impl WarmupTimer {
    /// The accumulated time does not exceed the duration.
    pub open spec fn wf(self) -> bool {
        self.elapsed <= self.duration
    }

    /// Whether the warm-up is over.
    pub open spec fn spec_finished(self) -> bool {
        self.elapsed >= self.duration
    }

    /// The timer after `delta` more nanoseconds.
    pub open spec fn spec_after(self, delta: u64) -> WarmupTimer {
        WarmupTimer {
            duration: self.duration,
            elapsed: if self.elapsed + delta >= self.duration {
                self.duration
            } else {
                (self.elapsed + delta) as u64
            },
        }
    }

    /// A timer of the given duration with nothing accumulated.
    pub fn new(duration: u64) -> (timer: WarmupTimer)
        ensures
            timer == (WarmupTimer { duration, elapsed: 0 }),
            timer.wf(),
    {
        WarmupTimer { duration, elapsed: 0 }
    }

    /// Let `delta` nanoseconds pass.
    pub fn tick(&mut self, delta: u64)
        requires
            old(self).wf(),
        ensures
            *final(self) == old(self).spec_after(delta),
            final(self).wf(),
            old(self).spec_finished() ==> *final(self) == *old(self),
    {
        if delta >= self.duration - self.elapsed {
            self.elapsed = self.duration;
        } else {
            self.elapsed = self.elapsed + delta;
        }
    }

    /// Whether the warm-up is over.
    pub fn finished(&self) -> (done: bool)
        ensures
            done == self.spec_finished(),
    {
        self.elapsed >= self.duration
    }
}

impl Default for WarmupTimer {
    fn default() -> (timer: WarmupTimer)
        ensures
            timer == (WarmupTimer { duration: PERF_WARMUP, elapsed: 0 }),
    {
        WarmupTimer::new(PERF_WARMUP)
    }
}

/// Milestone ball counts, recorded when a frame rate first crosses below a threshold.
#[derive(Clone, Copy, Debug, PartialEq, Eq)]
pub struct PerfStats {
    /// Ball count when the instantaneous rate first dropped below fifty.
    pub first_below_50: Option<usize>,
    /// Ball count when the averaged rate first dropped below fifty.
    pub avg_below_50: Option<usize>,
    /// Ball count when the instantaneous rate first dropped below fifteen.
    pub first_below_15: Option<usize>,
    /// Ball count when the averaged rate first dropped below fifteen.
    pub avg_below_15: Option<usize>,
}

/// Whether a frame rate counts as a crossing of the threshold: it was measured and is strictly below.
pub open spec fn spec_crossing(rate: u64, threshold: u64) -> bool {
    0 < rate < threshold
}

/// One watch after one sample: it fires on the first crossing after the warm-up and keeps its value from then on.
pub open spec fn spec_watch(
    recorded: Option<usize>,
    rate: u64,
    threshold: u64,
    warmed_up: bool,
    balls: usize,
) -> Option<usize> {
    if recorded is None && warmed_up && spec_crossing(rate, threshold) {
        Some(balls)
    } else {
        recorded
    }
}

/// One watch after one sample.
pub fn watch(
    recorded: Option<usize>,
    rate: u64,
    threshold: u64,
    warmed_up: bool,
    balls: usize,
) -> (after: Option<usize>)
    ensures
        after == spec_watch(recorded, rate, threshold, warmed_up, balls),
        recorded is Some ==> after == recorded,
        !warmed_up ==> after == recorded,
{
    if warmed_up && rate < threshold && rate > 0 && recorded.is_none() {
        Some(balls)
    } else {
        recorded
    }
}

impl PerfStats {
    /// No milestone is recorded.
    pub open spec fn is_clear(self) -> bool {
        &&& self.first_below_50 is None
        &&& self.avg_below_50 is None
        &&& self.first_below_15 is None
        &&& self.avg_below_15 is None
    }

    /// The milestones after one sample of the two frame rates.
    pub open spec fn spec_record(self, fps: u64, fps_avg: u64, balls: usize, warmed_up: bool) -> PerfStats {
        PerfStats {
            first_below_50: spec_watch(self.first_below_50, fps, FPS_HIGH, warmed_up, balls),
            avg_below_50: spec_watch(self.avg_below_50, fps_avg, FPS_HIGH, warmed_up, balls),
            first_below_15: spec_watch(self.first_below_15, fps, FPS_LOW, warmed_up, balls),
            avg_below_15: spec_watch(self.avg_below_15, fps_avg, FPS_LOW, warmed_up, balls),
        }
    }

    /// Whether every milestone that `self` holds is held unchanged by `later`.
    pub open spec fn frozen_in(self, later: PerfStats) -> bool {
        &&& (self.first_below_50 is Some ==> later.first_below_50 == self.first_below_50)
        &&& (self.avg_below_50 is Some ==> later.avg_below_50 == self.avg_below_50)
        &&& (self.first_below_15 is Some ==> later.first_below_15 == self.first_below_15)
        &&& (self.avg_below_15 is Some ==> later.avg_below_15 == self.avg_below_15)
    }

    /// Take one sample of the instantaneous and the averaged frame rate
    /// while `balls` balls are alive. Each watch that has not fired yet
    /// records `balls` if the warm-up is over and its rate is measured and
    /// strictly below its threshold; a watch that has fired keeps its value.
    pub fn record(&mut self, fps: u64, fps_avg: u64, balls: usize, warmed_up: bool)
        ensures
            *final(self) == old(self).spec_record(fps, fps_avg, balls, warmed_up),
            old(self).frozen_in(*final(self)),
            !warmed_up ==> *final(self) == *old(self),
    {
        self.first_below_50 = watch(self.first_below_50, fps, FPS_HIGH, warmed_up, balls);
        self.avg_below_50 = watch(self.avg_below_50, fps_avg, FPS_HIGH, warmed_up, balls);
        self.first_below_15 = watch(self.first_below_15, fps, FPS_LOW, warmed_up, balls);
        self.avg_below_15 = watch(self.avg_below_15, fps_avg, FPS_LOW, warmed_up, balls);
    }
}

impl Default for PerfStats {
    fn default() -> (stats: PerfStats)
        ensures
            stats.is_clear(),
    {
        PerfStats { first_below_50: None, avg_below_50: None, first_below_15: None, avg_below_15: None }
    }
}

/// What the render host reports for one frame.
#[derive(Clone, Copy, Debug, PartialEq, Eq, Structural)]
pub struct FrameSample {
    /// Real time since the previous frame, in nanoseconds.
    pub delta: u64,
    /// Instantaneous frame rate, or zero if not yet measured.
    pub fps: u64,
    /// Smoothed frame rate, or zero if not yet measured.
    pub fps_avg: u64,
    /// Number of balls alive.
    pub balls: usize,
}

/// The warm-up timer and the milestones of the current mode activation.
#[derive(Clone, Copy, Debug, PartialEq, Eq)]
pub struct Telemetry {
    pub warmup: WarmupTimer,
    pub stats: PerfStats,
}

impl Telemetry {
    /// The warm-up timer is consistent.
    pub open spec fn wf(self) -> bool {
        self.warmup.wf()
    }

    /// The state right after a mode was entered: warm-up restarted, no milestone recorded.
    pub open spec fn spec_fresh() -> Telemetry {
        Telemetry {
            warmup: WarmupTimer { duration: PERF_WARMUP, elapsed: 0 },
            stats: PerfStats {
                first_below_50: None,
                avg_below_50: None,
                first_below_15: None,
                avg_below_15: None,
            },
        }
    }

    /// The state after one frame: the warm-up advances first, then the sample is taken.
    pub open spec fn spec_update(self, sample: FrameSample) -> Telemetry {
        let warmup = self.warmup.spec_after(sample.delta);
        Telemetry {
            warmup,
            stats: self.stats.spec_record(
                sample.fps,
                sample.fps_avg,
                sample.balls,
                warmup.spec_finished(),
            ),
        }
    }

    /// The state after a run of frames.
    pub open spec fn spec_run(self, samples: Seq<FrameSample>) -> Telemetry
        decreases samples.len(),
    {
        if samples.len() == 0 {
            self
        } else {
            self.spec_update(samples[0]).spec_run(samples.drop_first())
        }
    }

    /// The state right after a mode was entered.
    pub fn fresh() -> (telemetry: Telemetry)
        ensures
            telemetry == Telemetry::spec_fresh(),
            telemetry.wf(),
            telemetry.stats.is_clear(),
    {
        Telemetry {
            warmup: WarmupTimer::new(PERF_WARMUP),
            stats: PerfStats {
                first_below_50: None,
                avg_below_50: None,
                first_below_15: None,
                avg_below_15: None,
            },
        }
    }

    /// Restart the warm-up and clear all four milestones, as entering a mode does.
    pub fn reset(&mut self)
        ensures
            *final(self) == Telemetry::spec_fresh(),
            final(self).wf(),
            final(self).stats.is_clear(),
    {
        self.warmup = WarmupTimer::new(PERF_WARMUP);
        self.stats = PerfStats {
            first_below_50: None,
            avg_below_50: None,
            first_below_15: None,
            avg_below_15: None,
        };
    }

    /// Process one frame: advance the warm-up by the frame's real time, then
    /// take the sample. Milestones already recorded stay as they are, and
    /// nothing is recorded before the warm-up is over.
    pub fn update(&mut self, sample: FrameSample)
        requires
            old(self).wf(),
        ensures
            *final(self) == old(self).spec_update(sample),
            final(self).wf(),
            old(self).stats.frozen_in(final(self).stats),
            !final(self).warmup.spec_finished() ==> final(self).stats == old(self).stats,
    {
        self.warmup.tick(sample.delta);
        let warmed_up = self.warmup.finished();
        self.stats.record(sample.fps, sample.fps_avg, sample.balls, warmed_up);
    }
}

/// The real time that a run of frames covers.
pub open spec fn run_time(samples: Seq<FrameSample>) -> nat
    decreases samples.len(),
{
    if samples.len() == 0 {
        0
    } else {
        samples[0].delta as nat + run_time(samples.drop_first())
    }
}

/// A milestone, once recorded, holds the same value after any further run
/// of frames, whatever the frame rates in it: each watch fires at most once
/// per activation.
pub proof fn lemma_milestones_are_frozen(telemetry: Telemetry, samples: Seq<FrameSample>)
    ensures
        telemetry.stats.frozen_in(telemetry.spec_run(samples).stats),
    decreases samples.len(),
{
    if samples.len() > 0 {
        lemma_milestones_are_frozen(telemetry.spec_update(samples[0]), samples.drop_first());
    }
}

/// While the frames since the mode was entered cover less than the warm-up,
/// no milestone is recorded, whatever the frame rates.
pub proof fn lemma_no_milestone_during_warmup(telemetry: Telemetry, samples: Seq<FrameSample>)
    requires
        telemetry.wf(),
        telemetry.warmup.elapsed + run_time(samples) < telemetry.warmup.duration,
    ensures
        telemetry.spec_run(samples).stats == telemetry.stats,
        telemetry.spec_run(samples).warmup.duration == telemetry.warmup.duration,
        telemetry.spec_run(samples).warmup.elapsed == telemetry.warmup.elapsed + run_time(samples),
    decreases samples.len(),
{
    if samples.len() > 0 {
        lemma_no_milestone_during_warmup(telemetry.spec_update(samples[0]), samples.drop_first());
    }
}

/// After a mode was entered, a milestone can only be present once the
/// frames since then cover at least the warm-up.
pub proof fn lemma_milestone_implies_warmup_over(samples: Seq<FrameSample>)
    requires
        !Telemetry::spec_fresh().spec_run(samples).stats.is_clear(),
    ensures
        run_time(samples) >= PERF_WARMUP,
{
    if run_time(samples) < PERF_WARMUP {
        lemma_no_milestone_during_warmup(Telemetry::spec_fresh(), samples);
    }
}

} // verus!
