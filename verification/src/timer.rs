use vstd::prelude::*;

verus! {

/// Nanoseconds elapsed from `earlier` to `later`, clamped to zero when the
/// clock reads ran backwards (cross-core jitter, wall-clock adjustment).
pub open spec fn elapsed_nanos(later: u128, earlier: u128) -> u128 {
    if later >= earlier {
        (later - earlier) as u128
    } else {
        0
    }
}

/// Exec counterpart of `elapsed_nanos`: a saturating subtraction.
pub fn saturating_elapsed(later: u128, earlier: u128) -> (d: u128)
    ensures
        d == elapsed_nanos(later, earlier),
{
    if later >= earlier {
        later - earlier
    } else {
        0
    }
}

/// An elapsed-nanoseconds computation never underflows: it is bounded by the
/// later reading, it is an exact difference whenever the readings are ordered,
/// and a timestamp compared against itself always yields zero. Every backend's
/// `duration_since` returns exactly `elapsed_nanos` of the two readings.
pub proof fn lemma_elapsed_never_underflows(later: u128, earlier: u128)
    ensures
        elapsed_nanos(later, earlier) <= later,
        earlier <= later ==> elapsed_nanos(later, earlier) == later - earlier,
        later < earlier ==> elapsed_nanos(later, earlier) == 0,
        elapsed_nanos(later, later) == 0,
{
}

/// A point in time captured from one clock backend. Every timestamp carries
/// a plain nanosecond count since its family's reference point, so it is
/// only comparable with timestamps of the same family: the one opened by the
/// `reference()` call it descends from. Backends with a process-wide epoch
/// make all families agree; the standard-clock backend anchors each family
/// to the reference instant it captured (the reference is injected through
/// the values instead of living in process-global state).
pub trait Timer: Sized + Copy {
    /// The timestamp's nanosecond count since its family's reference point.
    spec fn spec_nanos(&self) -> u128;

    /// Captures a reference timestamp, opening a new timestamp family.
    fn reference() -> (t: Self);

    /// Captures the current time as a timestamp of `self`'s family. The
    /// reading itself is nondeterministic: nothing is promised about the
    /// value, so every caller must hold for every possible reading.
    fn now(&self) -> (t: Self);

    /// Nanoseconds elapsed from `earlier` to `self`, saturating at zero when
    /// `earlier` is logically later.
    fn duration_since(&self, earlier: &Self) -> (d: u128)
        ensures
            d == elapsed_nanos(self.spec_nanos(), earlier.spec_nanos()),
    ;

    /// The raw nanosecond count, for fast relative comparisons only.
    fn as_nanos(&self) -> (n: u128)
        ensures
            n == self.spec_nanos(),
    ;

    /// The backend's name at the specification level, so that contracts can
    /// speak of it.
    spec fn spec_backend_name() -> Seq<char>;

    /// A short human-readable name of the backend: the same string on every
    /// call, fixed per backend.
    fn backend_name() -> (s: &'static str)
        ensures
            s@ == Self::spec_backend_name(),
    ;
}

#[verifier::external_type_specification]
#[verifier::external_body]
pub struct ExInstant(std::time::Instant);

#[verifier::external_type_specification]
#[verifier::external_body]
pub struct ExQuantaClock(quanta::Clock);

#[verifier::external_type_specification]
#[verifier::external_body]
pub struct ExMinstantInstant(minstant::Instant);

#[verifier::external_type_specification]
#[verifier::external_body]
pub struct ExMinstantAnchor(minstant::Anchor);

/// Relies on std::time::Instant::now: reads the platform's monotonic clock,
/// whose readings never decrease within one process.
#[verifier::external_body]
fn instant_now() -> (i: std::time::Instant) {
    std::time::Instant::now()
}

/// Relies on std::time::Instant::duration_since: the span from `earlier` to
/// `later`, converted to nanoseconds; std documents that it is zero when
/// `earlier` is the later reading, never a panic.
#[verifier::external_body]
fn instant_elapsed_nanos(later: &std::time::Instant, earlier: &std::time::Instant) -> (n: u128) {
    later.duration_since(*earlier).as_nanos()
}

/// Relies on quanta::Clock::new: builds a clock handle backed by the
/// processor's cycle counter where available; calibration is shared
/// process-wide inside the crate, so construction is cheap after first use.
#[verifier::external_body]
fn quanta_clock() -> (c: quanta::Clock) {
    quanta::Clock::new()
}

/// Relies on quanta::Clock::raw: the current raw reading of the fastest
/// available time source.
#[verifier::external_body]
fn quanta_raw(c: &quanta::Clock) -> (r: u64) {
    c.raw()
}

/// Relies on quanta::Clock::delta_as_nanos: scales the span between two raw
/// readings to nanoseconds, returning zero when `end <= start`.
#[verifier::external_body]
fn quanta_delta_nanos(c: &quanta::Clock, start: u64, end: u64) -> (n: u64)
    ensures
        end <= start ==> n == 0,
{
    c.delta_as_nanos(start, end)
}

/// Relies on minstant::Anchor::new: captures calibration data tying the cycle
/// counter to the system clock. Aborts only if the system clock reads before
/// the unix epoch.
#[verifier::external_body]
fn minstant_anchor() -> (a: minstant::Anchor) {
    minstant::Anchor::new()
}

/// Relies on minstant::Instant::now: reads the cycle counter, falling back to
/// the system wall clock where no usable cycle counter exists.
#[verifier::external_body]
fn minstant_now() -> (i: minstant::Instant) {
    minstant::Instant::now()
}

/// Relies on minstant::Instant::as_unix_nanos: converts the reading to
/// nanoseconds since the unix epoch via the anchor's calibration.
#[verifier::external_body]
fn minstant_unix_nanos(i: &minstant::Instant, a: &minstant::Anchor) -> (n: u64) {
    i.as_unix_nanos(a)
}

/// Timestamps from the platform's monotonic instant. Each family carries
/// the reference instant that its `reference()` call captured, and every
/// timestamp's nanosecond count is the monotonic span from that reference:
/// the reference is injected through the values, standing in for the
/// process-wide reference cell that a `static` would hold.
#[derive(Clone, Copy)]
pub struct StdTimer {
    /// The family's reference instant, shared by every descendant timestamp.
    pub family_reference: std::time::Instant,
    /// Monotonic nanoseconds from the family reference to this reading.
    pub nanos: u128,
}

impl Timer for StdTimer {
    open spec fn spec_nanos(&self) -> u128 {
        self.nanos
    }

    fn reference() -> (t: Self) {
        StdTimer { family_reference: instant_now(), nanos: 0 }
    }

    fn now(&self) -> (t: Self) {
        let current = instant_now();
        StdTimer {
            family_reference: self.family_reference,
            nanos: instant_elapsed_nanos(&current, &self.family_reference),
        }
    }

    fn duration_since(&self, earlier: &Self) -> (d: u128) {
        saturating_elapsed(self.nanos, earlier.nanos)
    }

    fn as_nanos(&self) -> (n: u128) {
        self.nanos
    }

    open spec fn spec_backend_name() -> Seq<char> {
        "std::time::Instant"@
    }

    fn backend_name() -> (s: &'static str) {
        "std::time::Instant"
    }
}

/// Timestamps from a hardware cycle counter scaled by quanta's process-wide
/// calibration.
#[derive(Clone, Copy)]
pub struct QuantaTimer {
    pub nanos: u128,
}

impl Timer for QuantaTimer {
    open spec fn spec_nanos(&self) -> u128 {
        self.nanos
    }

    fn reference() -> (t: Self) {
        let c = quanta_clock();
        let raw = quanta_raw(&c);
        let n = quanta_delta_nanos(&c, 0, raw);
        QuantaTimer { nanos: n as u128 }
    }

    fn now(&self) -> (t: Self) {
        // quanta's calibration is process-wide, so every family agrees.
        Self::reference()
    }

    fn duration_since(&self, earlier: &Self) -> (d: u128) {
        saturating_elapsed(self.nanos, earlier.nanos)
    }

    fn as_nanos(&self) -> (n: u128) {
        self.nanos
    }

    open spec fn spec_backend_name() -> Seq<char> {
        "quanta (TSC)"@
    }

    fn backend_name() -> (s: &'static str) {
        "quanta (TSC)"
    }
}

/// Timestamps from a cycle counter anchored to the system clock, degrading to
/// the system wall clock on machines without a usable cycle counter.
#[derive(Clone, Copy)]
pub struct MInstantTimer {
    pub nanos: u128,
}

impl Timer for MInstantTimer {
    open spec fn spec_nanos(&self) -> u128 {
        self.nanos
    }

    fn reference() -> (t: Self) {
        let a = minstant_anchor();
        let i = minstant_now();
        let n = minstant_unix_nanos(&i, &a);
        MInstantTimer { nanos: n as u128 }
    }

    fn now(&self) -> (t: Self) {
        // minstant anchors every reading to the unix epoch, so every family
        // agrees.
        Self::reference()
    }

    fn duration_since(&self, earlier: &Self) -> (d: u128) {
        saturating_elapsed(self.nanos, earlier.nanos)
    }

    fn as_nanos(&self) -> (n: u128) {
        self.nanos
    }

    open spec fn spec_backend_name() -> Seq<char> {
        "minstant (TSC with fallback)"@
    }

    fn backend_name() -> (s: &'static str) {
        "minstant (TSC with fallback)"
    }
}

} // verus!
