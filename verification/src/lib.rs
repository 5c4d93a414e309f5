//! A frame-timing utility: it measures the time between successive logical
//! frames of a host loop, keeps instantaneous and rolling-average frame
//! statistics, and helps cap the loop's rate at a target frame rate.
//!
//! Frame times are nanosecond counts and frame rates are millihertz counts
//! (thousandths of frames per second), so all of the arithmetic is exact
//! integer arithmetic.

pub mod counter;
pub mod stats;
pub mod timer;

pub use counter::FrameCounter;
pub use counter::WaitAction;
pub use counter::INITIAL_FRAMERATE_MILLIHERTZ;
pub use counter::MIN_SAMPLE_CAPACITY;
pub use counter::RATE_SCALE;
pub use counter::SLEEP_INCREMENT_MICROS;
pub use counter::SLEEP_THRESHOLD_NANOS;
pub use counter::YIELD_THRESHOLD_NANOS;
pub use counter::lemma_rolling_average_is_recent_mean;
pub use counter::poll_throttle;
pub use counter::rendered_summary;
pub use counter::spin_until_elapsed;
pub use counter::throttle_action;
pub use timer::MInstantTimer;
pub use timer::QuantaTimer;
pub use timer::StdTimer;
pub use timer::Timer;
pub use timer::elapsed_nanos;
pub use timer::lemma_elapsed_never_underflows;
pub use timer::saturating_elapsed;
