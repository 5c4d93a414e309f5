use vstd::prelude::*;
use vstd::arithmetic::div_mod::lemma_div_is_ordered;
use vstd::arithmetic::div_mod::lemma_div_multiples_vanish;
use vstd::arithmetic::div_mod::lemma_mod_bound;
use vstd::arithmetic::div_mod::lemma_mod_multiples_vanish;
use vstd::arithmetic::div_mod::lemma_small_mod;
use vstd::arithmetic::mul::lemma_mul_inequality;
use vstd::arithmetic::mul::lemma_mul_upper_bound;
use crate::stats::buffer_matches;
use crate::stats::lemma_buffer_matches_push;
use crate::stats::lemma_buffer_sums_recent;
use crate::stats::lemma_mod_step;
use crate::stats::lemma_sum_nanos_bounds;
use crate::stats::lemma_sum_nanos_take_step;
use crate::stats::recent_window;
use crate::stats::sum_nanos;
use crate::timer::Timer;
use crate::timer::elapsed_nanos;
use crate::timer::saturating_elapsed;

verus! {

/// Nanoseconds in one second times millihertz in one hertz. Dividing it by a
/// frame time in nanoseconds gives the frame rate in millihertz, and dividing
/// it by a frame rate in millihertz gives the frame time in nanoseconds.
pub const RATE_SCALE: u64 = 1_000_000_000_000;

/// The starting frame-rate guess of `FrameCounter::default`, in millihertz
/// (one hundred frames per second).
pub const INITIAL_FRAMERATE_MILLIHERTZ: u64 = 100_000;

/// The smallest capacity of the rolling-average sample buffer.
pub const MIN_SAMPLE_CAPACITY: u64 = 30;

/// A hybrid wait with more than this many nanoseconds left sleeps in short
/// increments, giving the processor away.
pub const SLEEP_THRESHOLD_NANOS: u128 = 2_000_000;

/// A hybrid wait with less time left than the sleep threshold but more than
/// this many nanoseconds yields the thread; below it, it busy-spins.
pub const YIELD_THRESHOLD_NANOS: u128 = 100_000;

/// How many microseconds each sleep increment of a hybrid wait should last.
pub const SLEEP_INCREMENT_MICROS: u64 = 500;

/// Clamps a nanosecond count into `u64`.
pub open spec fn clamp64(x: int) -> u64 {
    if x > u64::MAX {
        u64::MAX
    } else if x < 0 {
        0u64
    } else {
        x as u64
    }
}

/// Exec counterpart of `clamp64`.
fn clamp_to_u64(x: u128) -> (r: u64)
    ensures
        r == clamp64(x as int),
{
    if x > u64::MAX as u128 {
        u64::MAX
    } else {
        x as u64
    }
}

/// The rolling buffer's capacity for a starting rate in millihertz: one
/// second's worth of frames at that rate, never fewer than the minimum.
pub open spec fn spec_buffer_capacity(rate_millihertz: u64) -> int {
    if rate_millihertz / 1000 < MIN_SAMPLE_CAPACITY {
        MIN_SAMPLE_CAPACITY as int
    } else {
        (rate_millihertz / 1000) as int
    }
}

/// The instantaneous rate, in millihertz, of a frame that took `nanos`
/// nanoseconds; a zero-length frame keeps the previous rate `prev` so that no
/// division by zero can produce a nonsense value.
pub open spec fn rate_of_frame(nanos: u64, prev: u64) -> u64 {
    if nanos > 0 {
        (RATE_SCALE as int / nanos as int) as u64
    } else {
        prev
    }
}

/// The cumulative average frame time during warm-up: the wall time `w` since
/// construction over the number of frames counted so far.
pub open spec fn warmup_avg_time(w: u128, count: u64) -> u64 {
    clamp64(w as int / count as int)
}

/// The cumulative average rate during warm-up, in millihertz; a zero wall
/// time keeps the previous rate `prev`.
pub open spec fn warmup_avg_rate(w: u128, count: u64, prev: u64) -> u64 {
    if w > 0 {
        clamp64(count as int * RATE_SCALE as int / w as int)
    } else {
        prev
    }
}

/// Counts frames of a host loop and keeps instantaneous and rolling-average
/// frame statistics. Frame times are nanosecond counts and frame rates are
/// millihertz counts. Drive it by calling `tick` once per loop iteration.
pub struct FrameCounter<T: Timer> {
    /// Timestamp of the latest `tick`, or of construction.
    pub last_tick: T,
    /// Total `tick` calls since construction.
    pub frame_count: u64,
    /// Duration of the most recent frame, in nanoseconds.
    pub last_frame_time_nanos: u64,
    /// Rate of the most recent frame, in millihertz.
    pub last_frame_rate_millihertz: u64,
    /// Timestamp of construction; start of the cumulative warm-up average.
    pub avg_window_start: T,
    /// Rolling-average frame time, in nanoseconds.
    pub avg_frame_time_nanos: u64,
    /// Rolling-average frame rate, in millihertz.
    pub avg_frame_rate_millihertz: u64,
    /// Timestamp of the latest `tick`, the reference point for rate capping;
    /// absent until the first `tick`.
    pub target_frame_start: Option<T>,
    /// Circular buffer of the most recent frame times, in nanoseconds.
    pub frame_times_buffer: Vec<u64>,
    /// Next write position in the circular buffer.
    pub buffer_index: usize,
    /// Every frame time ever recorded, oldest first.
    pub history: Ghost<Seq<u64>>,
}

impl<T: Timer> FrameCounter<T> {
    /// The counter's internal consistency: the circular buffer mirrors the
    /// most recent samples of the history, the write position walks in step
    /// with the frame count, and — once the buffer has completed a pass —
    /// the rolling average is the exact mean of the buffered samples.
    pub open spec fn wf(&self) -> bool {
        let len = self.frame_times_buffer@.len() as int;
        &&& len >= MIN_SAMPLE_CAPACITY
        &&& self.history@.len() == self.frame_count
        &&& self.buffer_index as int == self.frame_count as int % len
        &&& buffer_matches(self.history@, self.frame_times_buffer@)
        &&& self.frame_count >= len ==> self.avg_frame_time_nanos
            == sum_nanos(recent_window(self.history@, len)) / len
        &&& self.target_frame_start is Some <==> self.frame_count > 0
    }

    /// Builds a counter from a starting frame-rate guess in millihertz. The
    /// guess seeds the frame-time and rate statistics and sizes the rolling
    /// buffer; no frame has been counted yet.
    pub fn new(initial_rate_millihertz: u64) -> (fc: FrameCounter<T>)
        requires
            initial_rate_millihertz > 0,
            initial_rate_millihertz / 1000 <= usize::MAX as u64,
        ensures
            fc.wf(),
            fc.frame_count == 0,
            fc.history@ == Seq::<u64>::empty(),
            fc.last_frame_time_nanos == RATE_SCALE / initial_rate_millihertz,
            fc.last_frame_rate_millihertz == initial_rate_millihertz,
            fc.avg_frame_time_nanos == RATE_SCALE / initial_rate_millihertz,
            fc.avg_frame_rate_millihertz == initial_rate_millihertz,
            fc.frame_times_buffer@.len() == spec_buffer_capacity(initial_rate_millihertz),
            forall|j: int|
                0 <= j < fc.frame_times_buffer@.len() ==> fc.frame_times_buffer@[j] == 0u64,
            fc.buffer_index == 0,
            fc.target_frame_start is None,
            fc.last_tick == fc.avg_window_start,
    {
        let now = T::reference();
        let fps: u64 = initial_rate_millihertz / 1000;
        let cap64: u64 = if fps < MIN_SAMPLE_CAPACITY {
            MIN_SAMPLE_CAPACITY
        } else {
            fps
        };
        let cap: usize = cap64 as usize;
        let mut buffer: Vec<u64> = Vec::with_capacity(cap);
        let mut i: usize = 0;
        while i < cap
            invariant
                i <= cap,
                buffer@.len() == i,
                forall|j: int| 0 <= j < i ==> buffer@[j] == 0u64,
            decreases cap - i,
        {
            buffer.push(0u64);
            i = i + 1;
        }
        let fc = FrameCounter {
            last_tick: now,
            frame_count: 0u64,
            last_frame_time_nanos: RATE_SCALE / initial_rate_millihertz,
            last_frame_rate_millihertz: initial_rate_millihertz,
            avg_window_start: now,
            avg_frame_time_nanos: RATE_SCALE / initial_rate_millihertz,
            avg_frame_rate_millihertz: initial_rate_millihertz,
            target_frame_start: None,
            frame_times_buffer: buffer,
            buffer_index: 0usize,
            history: Ghost(Seq::empty()),
        };
        proof {
            lemma_small_mod(0nat, fc.frame_times_buffer@.len() as nat);
        }
        fc
    }

    /// Closes the current frame and opens the next one: measures the time
    /// since the previous `tick` (or construction), records it in the
    /// circular buffer, and refreshes the instantaneous and rolling-average
    /// statistics. The fresh clock reading is left in `last_tick` and
    /// `target_frame_start`, so every postcondition speaks relative to it.
    pub fn tick(&mut self)
        requires
            old(self).wf(),
            old(self).frame_count < u64::MAX,
        ensures
            final(self).wf(),
            final(self).frame_count == old(self).frame_count + 1,
            final(self).target_frame_start == Some(final(self).last_tick),
            final(self).avg_window_start == old(self).avg_window_start,
            final(self).frame_times_buffer@.len() == old(self).frame_times_buffer@.len(),
            final(self).last_frame_time_nanos == clamp64(
                elapsed_nanos(
                    final(self).last_tick.spec_nanos(),
                    old(self).last_tick.spec_nanos(),
                ) as int,
            ),
            final(self).history@ == old(self).history@.push(final(self).last_frame_time_nanos),
            final(self).frame_times_buffer@ == old(self).frame_times_buffer@.update(
                old(self).buffer_index as int,
                final(self).last_frame_time_nanos,
            ),
            final(self).last_frame_rate_millihertz == rate_of_frame(
                final(self).last_frame_time_nanos,
                old(self).last_frame_rate_millihertz,
            ),
            final(self).frame_count >= final(self).frame_times_buffer@.len() ==> {
                &&& final(self).avg_frame_time_nanos == sum_nanos(
                    recent_window(
                        final(self).history@,
                        final(self).frame_times_buffer@.len() as int,
                    ),
                ) / (final(self).frame_times_buffer@.len() as int)
                &&& final(self).avg_frame_rate_millihertz == rate_of_frame(
                    final(self).avg_frame_time_nanos,
                    old(self).avg_frame_rate_millihertz,
                )
            },
            final(self).frame_count < final(self).frame_times_buffer@.len() ==> {
                &&& final(self).avg_frame_time_nanos == warmup_avg_time(
                    elapsed_nanos(
                        final(self).last_tick.spec_nanos(),
                        old(self).avg_window_start.spec_nanos(),
                    ),
                    final(self).frame_count,
                )
                &&& final(self).avg_frame_rate_millihertz == warmup_avg_rate(
                    elapsed_nanos(
                        final(self).last_tick.spec_nanos(),
                        old(self).avg_window_start.spec_nanos(),
                    ),
                    final(self).frame_count,
                    old(self).avg_frame_rate_millihertz,
                )
            },
    {
        let ghost pre = *self;
        let now = self.last_tick.now();
        let len = self.frame_times_buffer.len();
        proof {
            lemma_mod_bound(pre.frame_count as int, len as int);
        }
        let d128 = now.duration_since(&self.last_tick);
        let d = clamp_to_u64(d128);
        self.last_frame_time_nanos = d;
        let idx = self.buffer_index;
        self.frame_times_buffer[idx] = d;
        self.history = Ghost(self.history@.push(d));
        self.buffer_index = (idx + 1) % len;
        if d > 0 {
            self.last_frame_rate_millihertz = RATE_SCALE / d;
        }
        self.frame_count = self.frame_count + 1;
        proof {
            lemma_buffer_matches_push(pre.history@, pre.frame_times_buffer@, d);
            lemma_mod_step(pre.frame_count as int, len as int);
            if idx + 1 == len {
                lemma_mod_multiples_vanish(1, 0, len as int);
                lemma_small_mod(0nat, len as nat);
            } else {
                lemma_small_mod((idx + 1) as nat, len as nat);
            }
        }
        if self.frame_count >= len as u64 {
            let mut total: u128 = 0;
            let mut i: usize = 0;
            while i < len
                invariant
                    i <= len,
                    len == self.frame_times_buffer@.len(),
                    total == sum_nanos(self.frame_times_buffer@.take(i as int)),
                    total <= (i as int) * (u64::MAX as int),
                decreases len - i,
            {
                proof {
                    lemma_sum_nanos_take_step(self.frame_times_buffer@, i as int);
                    lemma_mul_inequality(i + 1, len as int, u64::MAX as int);
                    lemma_mul_upper_bound(len as int, usize::MAX as int, u64::MAX as int, u64::MAX as int);
                }
                total = total + self.frame_times_buffer[i] as u128;
                i = i + 1;
            }
            proof {
                assert(self.frame_times_buffer@.take(len as int) =~= self.frame_times_buffer@);
                lemma_sum_nanos_bounds(self.frame_times_buffer@);
                lemma_div_is_ordered(
                    total as int,
                    (len as int) * (u64::MAX as int),
                    len as int,
                );
                lemma_div_multiples_vanish(u64::MAX as int, len as int);
            }
            let avg = (total / (len as u128)) as u64;
            self.avg_frame_time_nanos = avg;
            if avg > 0 {
                self.avg_frame_rate_millihertz = RATE_SCALE / avg;
            }
            proof {
                lemma_buffer_sums_recent(self.history@, self.frame_times_buffer@);
            }
        } else {
            let w = now.duration_since(&self.avg_window_start);
            let avg = clamp_to_u64(w / (self.frame_count as u128));
            self.avg_frame_time_nanos = avg;
            if w > 0 {
                proof {
                    lemma_mul_upper_bound(
                        self.frame_count as int,
                        u64::MAX as int,
                        RATE_SCALE as int,
                        RATE_SCALE as int,
                    );
                }
                let scaled = (self.frame_count as u128) * (RATE_SCALE as u128);
                self.avg_frame_rate_millihertz = clamp_to_u64(scaled / w);
            }
        }
        self.target_frame_start = Some(now);
        self.last_tick = now;
    }

    /// The duration of the most recent frame, in nanoseconds.
    pub fn frame_time(&self) -> (nanos: u64)
        ensures
            nanos == self.last_frame_time_nanos,
    {
        self.last_frame_time_nanos
    }

    /// The rolling-average frame duration, in nanoseconds.
    pub fn avg_frame_time(&self) -> (nanos: u64)
        ensures
            nanos == self.avg_frame_time_nanos,
    {
        self.avg_frame_time_nanos
    }

    /// The rate of the most recent frame, in millihertz.
    pub fn frame_rate(&self) -> (millihertz: u64)
        ensures
            millihertz == self.last_frame_rate_millihertz,
    {
        self.last_frame_rate_millihertz
    }

    /// The rolling-average frame rate, in millihertz.
    pub fn avg_frame_rate(&self) -> (millihertz: u64)
        ensures
            millihertz == self.avg_frame_rate_millihertz,
    {
        self.avg_frame_rate_millihertz
    }

    /// Total frames counted since construction.
    pub fn total_frames(&self) -> (count: u64)
        ensures
            count == self.frame_count,
    {
        self.frame_count
    }

    /// How many samples the rolling-average buffer holds once full.
    pub fn sample_capacity(&self) -> (cap: usize)
        ensures
            cap == self.frame_times_buffer@.len(),
    {
        self.frame_times_buffer.len()
    }

    /// The reference point of the frame being capped: the timestamp that the
    /// latest `tick` captured, absent before the first `tick`.
    pub fn frame_start(&self) -> (start: Option<T>)
        ensures
            start == self.target_frame_start,
    {
        self.target_frame_start
    }

    /// The name of the clock backend in use: the backend's fixed name string,
    /// the same on every call.
    pub fn timer_backend(&self) -> (name: &'static str)
        ensures
            name@ == T::spec_backend_name(),
    {
        T::backend_name()
    }

    /// Busy-spins until the frame that the latest `tick` opened has lasted at
    /// least one period of `target_rate_millihertz`; a no-op before the first
    /// `tick`, when no reference point exists. The wait never ends early:
    /// whenever a wait took place, the returned timestamp is the clock
    /// reading that witnessed at least one full period since the frame
    /// started, beside the elapsed time it showed. `None` before the first
    /// `tick` — or if the clock never reached the deadline within
    /// `spin_until_elapsed`'s poll budget, which no advancing clock does.
    pub fn wait_until_framerate(&self, target_rate_millihertz: u64) -> (waited: Option<(T, u128)>)
        requires
            target_rate_millihertz > 0,
        ensures
            waited matches Some((witness, elapsed)) ==> {
                &&& self.target_frame_start is Some
                &&& elapsed == elapsed_nanos(
                    witness.spec_nanos(),
                    self.target_frame_start.unwrap().spec_nanos(),
                )
                &&& elapsed >= (RATE_SCALE as u128) / (target_rate_millihertz as u128)
            },
            self.target_frame_start is None ==> waited is None,
            self.target_frame_start is Some && (RATE_SCALE as u128) / (
            target_rate_millihertz as u128) == 0 ==> waited is Some,
    {
        match self.target_frame_start {
            Some(start) => {
                let target_nanos = (RATE_SCALE as u128) / (target_rate_millihertz as u128);
                spin_until_elapsed::<T>(&start, target_nanos)
            },
            None => None,
        }
    }
}

impl<T: Timer> Default for FrameCounter<T> {
    /// A counter seeded with a guess of one hundred frames per second:
    /// observably the same as `new(INITIAL_FRAMERATE_MILLIHERTZ)`.
    fn default() -> (fc: Self)
        ensures
            fc.wf(),
            fc.frame_count == 0,
            fc.history@ == Seq::<u64>::empty(),
            fc.last_frame_time_nanos == RATE_SCALE / INITIAL_FRAMERATE_MILLIHERTZ,
            fc.last_frame_rate_millihertz == INITIAL_FRAMERATE_MILLIHERTZ,
            fc.avg_frame_time_nanos == RATE_SCALE / INITIAL_FRAMERATE_MILLIHERTZ,
            fc.avg_frame_rate_millihertz == INITIAL_FRAMERATE_MILLIHERTZ,
            fc.frame_times_buffer@.len() == spec_buffer_capacity(INITIAL_FRAMERATE_MILLIHERTZ),
            forall|j: int|
                0 <= j < fc.frame_times_buffer@.len() ==> fc.frame_times_buffer@[j] == 0u64,
            fc.buffer_index == 0,
            fc.target_frame_start is None,
            fc.last_tick == fc.avg_window_start,
    {
        FrameCounter::new(INITIAL_FRAMERATE_MILLIHERTZ)
    }
}

/// Once the rolling buffer has completed a pass, the rolling-average frame
/// time equals the exact arithmetic mean of the most recent `capacity`
/// samples — every older sample has been evicted from the average.
pub proof fn lemma_rolling_average_is_recent_mean<T: Timer>(fc: &FrameCounter<T>)
    requires
        fc.wf(),
        fc.frame_count >= fc.frame_times_buffer@.len(),
    ensures
        fc.avg_frame_time_nanos == sum_nanos(
            recent_window(fc.history@, fc.frame_times_buffer@.len() as int),
        ) / (fc.frame_times_buffer@.len() as int),
{
}

/// Relies on std::hint::spin_loop: a busy-wait pause hint to the processor.
#[verifier::external_body]
fn spin_hint() {
    std::hint::spin_loop()
}

/// Busy-spins until `start`'s clock shows at least `target_nanos`
/// nanoseconds elapsed past `start`, and returns the clock reading that
/// witnessed it beside the elapsed time it showed: the wait never ends
/// before the target period has passed, the witness binds the elapsed time
/// to a genuine reading of the same timestamp family, and a zero-length
/// period succeeds at the first poll, whatever the clock reads. The poll
/// budget only bounds the loop; a clock that ever reaches the deadline
/// returns long before the budget runs out, and `None` means the clock
/// never reached it.
pub fn spin_until_elapsed<T: Timer>(start: &T, target_nanos: u128) -> (r: Option<(T, u128)>)
    ensures
        r matches Some((witness, elapsed)) ==> {
            &&& elapsed == elapsed_nanos(witness.spec_nanos(), start.spec_nanos())
            &&& elapsed >= target_nanos
        },
        target_nanos == 0 ==> r is Some,
{
    let start_nanos = start.as_nanos();
    let mut budget: u128 = u128::MAX;
    while budget > 0
        invariant
            budget < u128::MAX ==> target_nanos > 0,
            start_nanos == start.spec_nanos(),
        decreases budget,
    {
        let t = start.now();
        let e = saturating_elapsed(t.as_nanos(), start_nanos);
        if e >= target_nanos {
            return Some((t, e));
        }
        spin_hint();
        budget = budget - 1;
    }
    None
}

/// What a hybrid wait should do next, given how far its frame has come.
#[derive(Clone, Copy, Debug, PartialEq, Eq, Structural)]
pub enum WaitAction {
    /// Sleep for `SLEEP_INCREMENT_MICROS` microseconds: plenty of time left.
    Sleep,
    /// Yield the thread without sleeping: close, but not close enough to spin.
    Yield,
    /// Busy-spin: the deadline is imminent.
    Spin,
    /// The target period has fully elapsed: stop waiting.
    Done,
}

/// Picks the next step of a hybrid sleep-then-spin wait from the time elapsed
/// so far and the target period, both in nanoseconds: sleep while more than
/// the sleep threshold remains, yield while more than the yield threshold
/// remains, busy-spin below that, and stop once the period has elapsed.
pub fn throttle_action(elapsed: u128, target_nanos: u128) -> (action: WaitAction)
    ensures
        action == WaitAction::Done <==> elapsed >= target_nanos,
        elapsed < target_nanos && target_nanos - elapsed > SLEEP_THRESHOLD_NANOS ==> action
            == WaitAction::Sleep,
        elapsed < target_nanos && YIELD_THRESHOLD_NANOS < target_nanos - elapsed
            <= SLEEP_THRESHOLD_NANOS ==> action == WaitAction::Yield,
        elapsed < target_nanos && target_nanos - elapsed <= YIELD_THRESHOLD_NANOS ==> action
            == WaitAction::Spin,
{
    if elapsed >= target_nanos {
        WaitAction::Done
    } else {
        let remaining = target_nanos - elapsed;
        if remaining > SLEEP_THRESHOLD_NANOS {
            WaitAction::Sleep
        } else if remaining > YIELD_THRESHOLD_NANOS {
            WaitAction::Yield
        } else {
            WaitAction::Spin
        }
    }
}

/// One poll of a hybrid wait: reads `start`'s clock, computes the time
/// elapsed past `start` (saturating at zero), and picks the next step toward
/// the target period. The returned timestamp is the reading itself, the
/// elapsed time is bound to it, and the action is exactly the throttle
/// decision for that elapsed time — so a host loop that performs the actions
/// until `Done` stops only once a genuine reading of `start`'s family has
/// shown the target period elapsed.
pub fn poll_throttle<T: Timer>(start: &T, target_nanos: u128) -> (r: (T, WaitAction, u128))
    ensures
        r.2 == elapsed_nanos(r.0.spec_nanos(), start.spec_nanos()),
        r.1 == WaitAction::Done <==> r.2 >= target_nanos,
        r.2 < target_nanos && target_nanos - r.2 > SLEEP_THRESHOLD_NANOS ==> r.1
            == WaitAction::Sleep,
        r.2 < target_nanos && YIELD_THRESHOLD_NANOS < target_nanos - r.2 <= SLEEP_THRESHOLD_NANOS
            ==> r.1 == WaitAction::Yield,
        r.2 < target_nanos && target_nanos - r.2 <= YIELD_THRESHOLD_NANOS ==> r.1
            == WaitAction::Spin,
{
    let t = start.now();
    let elapsed = saturating_elapsed(t.as_nanos(), start.as_nanos());
    (t, throttle_action(elapsed, target_nanos), elapsed)
}

/// The text that the std format macro renders from the split statistic
/// parts: a function of the arguments alone.
pub uninterp spec fn rendered_summary(
    avg_fps_whole: int,
    avg_fps_cents: int,
    avg_ms_whole: int,
    avg_ms_thousandths: int,
    cur_fps_whole: int,
    cur_fps_cents: int,
    cur_ms_whole: int,
    cur_ms_thousandths: int,
    backend: Seq<char>,
) -> Seq<char>;

/// Relies on the std format macro: renders already-split statistic parts;
/// purely presentational, and a function of the arguments alone.
#[verifier::external_body]
fn render_summary(
    avg_fps_whole: u64,
    avg_fps_cents: u64,
    avg_ms_whole: u64,
    avg_ms_thousandths: u64,
    cur_fps_whole: u64,
    cur_fps_cents: u64,
    cur_ms_whole: u64,
    cur_ms_thousandths: u64,
    backend: &'static str,
) -> (s: String)
    ensures
        s@ == rendered_summary(
            avg_fps_whole as int,
            avg_fps_cents as int,
            avg_ms_whole as int,
            avg_ms_thousandths as int,
            cur_fps_whole as int,
            cur_fps_cents as int,
            cur_ms_whole as int,
            cur_ms_thousandths as int,
            backend@,
        ),
{
    format!(
        "avg: {}.{:02} fps ({}.{:03}ms); current: {}.{:02} fps ({}.{:03}ms) [{}]",
        avg_fps_whole,
        avg_fps_cents,
        avg_ms_whole,
        avg_ms_thousandths,
        cur_fps_whole,
        cur_fps_cents,
        cur_ms_whole,
        cur_ms_thousandths,
        backend,
    )
}

impl<T: Timer> FrameCounter<T> {
    /// A human-readable summary of the average and instantaneous statistics,
    /// with rates in frames per second (two fractional digits) and times in
    /// milliseconds (three fractional digits). The fractional digits are
    /// split off by integer division, so they are truncated, never rounded
    /// up: 59,999 millihertz reads "59.99 fps".
    pub fn summary(&self) -> (s: String)
        ensures
            s@ == rendered_summary(
                self.avg_frame_rate_millihertz as int / 1000,
                (self.avg_frame_rate_millihertz as int % 1000) / 10,
                self.avg_frame_time_nanos as int / 1000000,
                (self.avg_frame_time_nanos as int / 1000) % 1000,
                self.last_frame_rate_millihertz as int / 1000,
                (self.last_frame_rate_millihertz as int % 1000) / 10,
                self.last_frame_time_nanos as int / 1000000,
                (self.last_frame_time_nanos as int / 1000) % 1000,
                T::spec_backend_name(),
            ),
    {
        let avg_mhz = self.avg_frame_rate_millihertz;
        let avg_ns = self.avg_frame_time_nanos;
        let cur_mhz = self.last_frame_rate_millihertz;
        let cur_ns = self.last_frame_time_nanos;
        render_summary(
            avg_mhz / 1000,
            (avg_mhz % 1000) / 10,
            avg_ns / 1000000,
            (avg_ns / 1000) % 1000,
            cur_mhz / 1000,
            (cur_mhz % 1000) / 10,
            cur_ns / 1000000,
            (cur_ns / 1000) % 1000,
            T::backend_name(),
        )
    }
}

} // verus!
