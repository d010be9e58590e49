//! Performance monitoring and frame timing.
//!
//! Tools for tracking frame times and detecting stutters. All times are in
//! nanoseconds.

use std::time::Duration;
use std::time::Instant;
use vstd::prelude::*;

verus! {

/// Target frame time for 60 FPS (16.67ms), in nanoseconds.
pub const TARGET_FRAME_TIME_60FPS: u64 = 16_667_000;

/// Target frame time for 120 FPS (8.33ms), in nanoseconds.
pub const TARGET_FRAME_TIME_120FPS: u64 = 8_333_000;

/// Target frame time for 144 FPS (6.94ms), in nanoseconds.
pub const TARGET_FRAME_TIME_144FPS: u64 = 6_944_000;

/// A frame stutters when it takes more than this many target frame times.
pub const STUTTER_THRESHOLD_MULTIPLIER: u64 = 2;

/// Number of frame times to keep in history.
pub const FRAME_TIME_HISTORY_SIZE: usize = 120;

/// The threshold of a scoped timer made by [`ScopedTimer::new`]: one
/// millisecond, in nanoseconds.
pub const DEFAULT_TIMER_THRESHOLD: u64 = 1_000_000;

/// `Instant` of the standard library: a reading of the monotonic clock.
/// Nothing inside it is visible to the verifier.
#[verifier::external_type_specification]
#[verifier::external_body]
pub struct ExInstant(Instant);

/// `Instant::now` of the standard library: the current reading of the
/// monotonic clock. Nothing is claimed of it.
#[verifier::external_body]
fn clock_now() -> (now: Instant) {
    Instant::now()
}

/// `Instant::elapsed` of the standard library: the time that has passed
/// since `start`. Nothing is claimed of it.
#[verifier::external_body]
fn clock_elapsed(start: &Instant) -> (elapsed: Duration) {
    start.elapsed()
}

/// `Duration::as_nanos` of the standard library: the whole duration in
/// nanoseconds. Nothing is claimed of it.
#[verifier::external_body]
fn duration_nanos(duration: &Duration) -> (nanos: u128) {
    duration.as_nanos()
}

/// The nanoseconds since `start`, or `u64::MAX` if they are more than that.
///
/// What comes back is a reading of the clock, so nothing is known of it
/// beforehand; [`saturating_nanos`] says what is made of each reading.
fn nanos_since(start: &Instant) -> (nanos: u64) {
    let elapsed = clock_elapsed(start);
    let nanos: u128 = duration_nanos(&elapsed);
    saturating_nanos(nanos)
}

/// A count of nanoseconds held within 64 bits: itself if it fits, and
/// `u64::MAX` if it does not.
pub open spec fn spec_saturating_nanos(nanos: u128) -> u64 {
    if nanos > u64::MAX {
        u64::MAX
    } else {
        nanos as u64
    }
}

/// Holds a count of nanoseconds within 64 bits.
#[verifier::when_used_as_spec(spec_saturating_nanos)]
pub fn saturating_nanos(nanos: u128) -> (held: u64)
    ensures
        held == spec_saturating_nanos(nanos),
{
    if nanos > 0xFFFF_FFFF_FFFF_FFFF {
        0xFFFF_FFFF_FFFF_FFFF
    } else {
        nanos as u64
    }
}

/// The sum of a list of frame times.
pub open spec fn total(times: Seq<u64>) -> int
    decreases times.len(),
{
    if times.len() == 0 {
        0
    } else {
        total(times.drop_last()) + times.last()
    }
}

/// The shortest of a list of frame times, `u64::MAX` if there is none.
pub open spec fn shortest(times: Seq<u64>) -> u64
    decreases times.len(),
{
    if times.len() == 0 {
        u64::MAX
    } else {
        let rest = shortest(times.drop_last());
        if times.last() < rest {
            times.last()
        } else {
            rest
        }
    }
}

/// The longest of a list of frame times, zero if there is none.
pub open spec fn longest(times: Seq<u64>) -> u64
    decreases times.len(),
{
    if times.len() == 0 {
        0
    } else {
        let rest = longest(times.drop_last());
        if times.last() > rest {
            times.last()
        } else {
            rest
        }
    }
}

/// Whether a frame of `frame_time` stutters at the target `target`: it took
/// more than twice the target.
pub open spec fn is_stutter(frame_time: u64, target: u64) -> bool {
    frame_time > STUTTER_THRESHOLD_MULTIPLIER * target
}

/// Frame timing statistics, in nanoseconds.
#[derive(Debug, Clone, Copy, PartialEq, Eq, Structural)]
pub struct FrameStats {
    /// Last frame time.
    pub last_frame_time: u64,
    /// Average frame time over history, rounded down.
    pub avg_frame_time: u64,
    /// Minimum frame time in history.
    pub min_frame_time: u64,
    /// Maximum frame time in history.
    pub max_frame_time: u64,
    /// Number of stutters detected.
    pub stutter_count: u64,
}

impl FrameStats {
    /// The statistics of a timer that has recorded nothing.
    pub open spec fn spec_default() -> FrameStats {
        FrameStats {
            last_frame_time: 0,
            avg_frame_time: 0,
            min_frame_time: u64::MAX,
            max_frame_time: 0,
            stutter_count: 0,
        }
    }
}

impl Default for FrameStats {
    fn default() -> (stats: FrameStats)
        ensures
            stats == FrameStats::spec_default(),
    {
        FrameStats {
            last_frame_time: 0,
            avg_frame_time: 0,
            min_frame_time: u64::MAX,
            max_frame_time: 0,
            stutter_count: 0,
        }
    }
}

/// The mathematical value of a [`FrameTimer`].
pub ghost struct FrameTimerView {
    /// The frame times in the history, oldest first.
    pub history: Seq<u64>,
    /// The target frame time.
    pub target: u64,
    /// The stutters counted so far.
    pub stutter_count: u64,
}

impl FrameTimerView {
    /// The history holds at most [`FRAME_TIME_HISTORY_SIZE`] frame times.
    pub open spec fn wf(self) -> bool {
        self.history.len() <= FRAME_TIME_HISTORY_SIZE
    }

    /// The timer after one more frame: the frame joins the history, in
    /// place of the oldest one if the history is full, and a stutter is
    /// counted, up to `u64::MAX` of them.
    pub open spec fn record(self, frame_time: u64) -> FrameTimerView {
        FrameTimerView {
            history: if self.history.len() < FRAME_TIME_HISTORY_SIZE {
                self.history.push(frame_time)
            } else {
                self.history.drop_first().push(frame_time)
            },
            stutter_count: if is_stutter(frame_time, self.target) && self.stutter_count
                < u64::MAX {
                (self.stutter_count + 1) as u64
            } else {
                self.stutter_count
            },
            ..self
        }
    }

    /// The statistics of the history.
    pub open spec fn stats(self) -> FrameStats {
        if self.history.len() == 0 {
            FrameStats::spec_default()
        } else {
            FrameStats {
                last_frame_time: self.history.last(),
                avg_frame_time: (total(self.history) / self.history.len() as int) as u64,
                min_frame_time: shortest(self.history),
                max_frame_time: longest(self.history),
                stutter_count: self.stutter_count,
            }
        }
    }
}

/// Frame time tracker for performance monitoring.
///
/// Uses a ring buffer to avoid allocations during frame recording.
pub struct FrameTimer {
    /// Ring buffer of frame times.
    frame_times: [u64; 120],
    /// Current position in the ring buffer.
    index: usize,
    /// Number of frames recorded (up to `FRAME_TIME_HISTORY_SIZE`).
    count: usize,
    /// Last frame start time.
    frame_start: Instant,
    /// Target frame time.
    target_frame_time: u64,
    /// Total stutter count.
    stutter_count: u64,
}

impl View for FrameTimer {
    type V = FrameTimerView;

    closed spec fn view(&self) -> FrameTimerView {
        FrameTimerView {
            history: Seq::new(
                self.count as nat,
                |i: int| self.frame_times[(self.oldest() + i) % 120],
            ),
            target: self.target_frame_time,
            stutter_count: self.stutter_count,
        }
    }
}

impl FrameTimer {
    /// The clock reading at which the current frame started.
    pub closed spec fn frame_start(&self) -> Instant {
        self.frame_start
    }

    /// The slot of the oldest frame time in the history.
    closed spec fn oldest(&self) -> int {
        if self.count < 120 {
            0
        } else {
            self.index as int
        }
    }

    /// What the fields of every timer satisfy.
    #[verifier::type_invariant]
    closed spec fn inv(&self) -> bool {
        &&& self.index < 120
        &&& self.count <= 120
        &&& self.count < 120 ==> self.index == self.count
    }

    /// Create a new frame timer targeting 60 FPS.
    pub fn new() -> (timer: FrameTimer)
        ensures
            timer@.history.len() == 0,
            timer@.target == TARGET_FRAME_TIME_60FPS,
            timer@.stutter_count == 0,
    {
        FrameTimer::with_target(TARGET_FRAME_TIME_60FPS)
    }

    /// Create a new frame timer with a custom target frame time.
    pub fn with_target(target: u64) -> (timer: FrameTimer)
        ensures
            timer@.history.len() == 0,
            timer@.target == target,
            timer@.stutter_count == 0,
    {
        FrameTimer {
            frame_times: [0u64; 120],
            index: 0,
            count: 0,
            frame_start: clock_now(),
            target_frame_time: target,
            stutter_count: 0,
        }
    }

    /// Mark the start of a new frame.
    ///
    /// The frame starts at the current reading of the clock: this is
    /// [`FrameTimer::begin_frame_at`] that reading.
    pub fn begin_frame(&mut self)
        ensures
            final(self)@ == old(self)@,
    {
        let now = clock_now();
        self.begin_frame_at(now);
    }

    /// Mark the start of a new frame at the clock reading `now`.
    ///
    /// The history, the target and the stutter count stay as they are.
    pub fn begin_frame_at(&mut self, now: Instant)
        ensures
            final(self).frame_start() == now,
            final(self)@ == old(self)@,
    {
        proof {
            use_type_invariant(&*self);
        }
        self.frame_start = now;
    }

    /// Mark the end of the current frame and record its duration.
    ///
    /// Returns `true` if the frame was considered a stutter.
    pub fn end_frame(&mut self) -> (stutter: bool)
        ensures
            exists|frame_time: u64|
                final(self)@ == #[trigger] old(self)@.record(frame_time) && stutter == is_stutter(
                    frame_time,
                    old(self)@.target,
                ),
    {
        let frame_time = nanos_since(&self.frame_start);
        self.record_frame_time(frame_time)
    }

    /// Record a frame time directly (for external timing).
    ///
    /// Returns `true` if the frame was considered a stutter.
    pub fn record_frame_time(&mut self, frame_time: u64) -> (stutter: bool)
        ensures
            final(self)@ == old(self)@.record(frame_time),
            stutter == is_stutter(frame_time, old(self)@.target),
            final(self)@.wf(),
    {
        proof {
            use_type_invariant(&*self);
        }
        let ghost before = *self;
        let mut frame_times = self.frame_times;
        frame_times[self.index] = frame_time;
        let stutter = frame_time as u128 > STUTTER_THRESHOLD_MULTIPLIER as u128
            * self.target_frame_time as u128;
        *self = FrameTimer {
            frame_times,
            index: (self.index + 1) % FRAME_TIME_HISTORY_SIZE,
            count: if self.count < FRAME_TIME_HISTORY_SIZE {
                self.count + 1
            } else {
                self.count
            },
            frame_start: self.frame_start,
            target_frame_time: self.target_frame_time,
            stutter_count: if stutter && self.stutter_count < u64::MAX {
                self.stutter_count + 1
            } else {
                self.stutter_count
            },
        };
        proof {
            assert(self@.history =~= before@.record(frame_time).history);
        }
        stutter
    }

    /// Get current frame statistics.
    pub fn stats(&self) -> (stats: FrameStats)
        ensures
            stats == self@.stats(),
    {
        proof {
            use_type_invariant(self);
        }
        if self.count == 0 {
            return FrameStats::default();
        }
        let start: usize = if self.count < FRAME_TIME_HISTORY_SIZE { 0 } else { self.index };
        let mut sum: u128 = 0;
        let mut min: u64 = u64::MAX;
        let mut max: u64 = 0;
        let ghost history = self@.history;
        for i in 0..self.count
            invariant
                self.count <= 120,
                start < 120,
                start == self.oldest(),
                history == self@.history,
                history.len() == self.count,
                sum == total(history.take(i as int)),
                sum <= i * u64::MAX,
                min == shortest(history.take(i as int)),
                max == longest(history.take(i as int)),
        {
            let time = self.frame_times[(start + i) % FRAME_TIME_HISTORY_SIZE];
            proof {
                assert(history.take(i + 1).drop_last() =~= history.take(i as int));
                assert(history.take(i + 1).last() == time);
            }
            sum += time as u128;
            if time < min {
                min = time;
            }
            if time > max {
                max = time;
            }
        }
        proof {
            assert(history.take(self.count as int) =~= history);
        }
        let avg: u128 = sum / self.count as u128;
        let last = if self.index == 0 {
            self.frame_times[FRAME_TIME_HISTORY_SIZE - 1]
        } else {
            self.frame_times[self.index - 1]
        };
        proof {
            lemma_average_fits(history);
        }
        FrameStats {
            last_frame_time: last,
            avg_frame_time: avg as u64,
            min_frame_time: min,
            max_frame_time: max,
            stutter_count: self.stutter_count,
        }
    }

    /// Reset all statistics.
    pub fn reset(&mut self)
        ensures
            final(self)@.history.len() == 0,
            final(self)@.stutter_count == 0,
            final(self)@.target == old(self)@.target,
    {
        *self = FrameTimer {
            frame_times: [0u64; 120],
            index: 0,
            count: 0,
            frame_start: self.frame_start,
            target_frame_time: self.target_frame_time,
            stutter_count: 0,
        };
    }

    /// Get the target frame time.
    pub fn target_frame_time(&self) -> (target: u64)
        ensures
            target == self@.target,
    {
        self.target_frame_time
    }

    /// Set a new target frame time.
    pub fn set_target_frame_time(&mut self, target: u64)
        ensures
            final(self)@ == (FrameTimerView { target, ..old(self)@ }),
    {
        proof {
            use_type_invariant(&*self);
        }
        self.target_frame_time = target;
    }
}

impl Default for FrameTimer {
    fn default() -> (timer: FrameTimer)
        ensures
            timer@.history.len() == 0,
            timer@.target == TARGET_FRAME_TIME_60FPS,
            timer@.stutter_count == 0,
    {
        FrameTimer::new()
    }
}

/// The sum of frame times is at most as many times `u64::MAX` as there are
/// frame times, so their average is a frame time.
pub proof fn lemma_average_fits(times: Seq<u64>)
    ensures
        0 <= total(times) <= times.len() * u64::MAX,
        times.len() > 0 ==> 0 <= total(times) / times.len() as int <= u64::MAX,
    decreases times.len(),
{
    if times.len() > 0 {
        lemma_average_fits(times.drop_last());
        assert(total(times) / times.len() as int <= u64::MAX) by (nonlinear_arith)
            requires
                0 <= total(times) <= times.len() * u64::MAX,
                times.len() > 0,
        ;
        assert(0 <= total(times) / times.len() as int) by (nonlinear_arith)
            requires
                0 <= total(times),
                times.len() > 0,
        ;
    }
}

/// The shortest frame time is at most every frame time, the longest at
/// least, and the average lies between the two.
pub proof fn lemma_stats_bounds(times: Seq<u64>, i: int)
    requires
        0 <= i < times.len(),
    ensures
        shortest(times) <= times[i] <= longest(times),
        shortest(times) * times.len() <= total(times) <= longest(times) * times.len(),
    decreases times.len(),
{
    let rest = times.drop_last();
    if rest.len() > 0 {
        lemma_stats_bounds(rest, if i < rest.len() { i } else { 0 });
        assert(shortest(times) * times.len() <= total(times) <= longest(times) * times.len())
            by (nonlinear_arith)
            requires
                shortest(rest) * rest.len() <= total(rest) <= longest(rest) * rest.len(),
                total(times) == total(rest) + times.last(),
                times.len() == rest.len() + 1,
                shortest(times) <= shortest(rest),
                shortest(times) <= times.last(),
                longest(times) >= longest(rest),
                longest(times) >= times.last(),
                rest.len() > 0,
                shortest(times) >= 0,
        ;
    } else {
        assert(total(rest) == 0);
        assert(shortest(rest) == u64::MAX);
        assert(longest(rest) == 0);
        assert(shortest(times) * times.len() <= total(times) <= longest(times) * times.len())
            by (nonlinear_arith)
            requires
                total(times) == times.last(),
                times.len() == 1,
                shortest(times) == times.last(),
                longest(times) == times.last(),
        ;
    }
}

/// Scope-based timer for measuring specific operations.
pub struct ScopedTimer {
    name: &'static str,
    start: Instant,
    threshold: u64,
}

impl ScopedTimer {
    /// The name the timer was made with.
    pub closed spec fn spec_name(&self) -> &'static str {
        self.name
    }

    /// The threshold the timer was made with, in nanoseconds.
    pub closed spec fn spec_threshold(&self) -> u64 {
        self.threshold
    }

    /// Create a new scoped timer with a threshold of one millisecond.
    pub fn new(name: &'static str) -> (timer: ScopedTimer)
        ensures
            timer.name() == name,
            timer.threshold() == DEFAULT_TIMER_THRESHOLD,
    {
        ScopedTimer { name, start: clock_now(), threshold: DEFAULT_TIMER_THRESHOLD }
    }

    /// Create a scoped timer with a custom threshold, in nanoseconds.
    pub fn with_threshold(name: &'static str, threshold: u64) -> (timer: ScopedTimer)
        ensures
            timer.name() == name,
            timer.threshold() == threshold,
    {
        ScopedTimer { name, start: clock_now(), threshold }
    }

    /// The name the timer was made with.
    #[verifier::when_used_as_spec(spec_name)]
    pub fn name(&self) -> (name: &'static str)
        ensures
            name == self.spec_name(),
    {
        self.name
    }

    /// The threshold the timer was made with, in nanoseconds.
    #[verifier::when_used_as_spec(spec_threshold)]
    pub fn threshold(&self) -> (threshold: u64)
        ensures
            threshold == self.spec_threshold(),
    {
        self.threshold
    }

    /// Get the elapsed time in nanoseconds, `u64::MAX` if it is more than
    /// that.
    ///
    /// The time is a reading of the clock, so nothing is known of it
    /// beforehand.
    pub fn elapsed(&self) -> (nanos: u64) {
        nanos_since(&self.start)
    }

    /// Whether a run of `elapsed` nanoseconds went over the threshold and
    /// is worth a warning.
    pub fn exceeded(&self, elapsed: u64) -> (over: bool)
        ensures
            over == (elapsed > self.threshold()),
    {
        elapsed > self.threshold
    }
}

} // verus!
