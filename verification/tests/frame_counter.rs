use frame_counter::FrameCounter;
use frame_counter::MInstantTimer;
use frame_counter::QuantaTimer;
use frame_counter::StdTimer;
use frame_counter::Timer;
use frame_counter::WaitAction;
use frame_counter::RATE_SCALE;
use frame_counter::poll_throttle;
use frame_counter::spin_until_elapsed;
use frame_counter::throttle_action;

/// Spins until the backend clock has visibly advanced past `t`.
fn wait_for_clock_advance<T: Timer>(t: &T) {
    loop {
        if t.now().as_nanos() > t.as_nanos() {
            break;
        }
        std::hint::spin_loop();
    }
}

#[test]
fn test_frame_counter_accuracy() {
    let mut fc = FrameCounter::<StdTimer>::new(60_000);

    // Simulate a 60 fps workload by capping each frame at 60 fps.
    for _ in 0..120 {
        fc.tick();
        fc.wait_until_framerate(60_000);
    }

    // Should be close to 60 fps.
    let avg_fps_millihertz: u64 = fc.avg_frame_rate();
    assert!(
        avg_fps_millihertz.abs_diff(60_000) < 2_000,
        "Average FPS {} not close to 60",
        avg_fps_millihertz as f64 / 1000.0
    );
}

#[test]
fn test_new_seeds_statistics() {
    for rate in [1u64, 5_000, 60_000, 100_000, 123_456] {
        let fc = FrameCounter::<StdTimer>::new(rate);
        assert_eq!(fc.frame_rate(), rate);
        assert_eq!(fc.avg_frame_rate(), rate);
        assert_eq!(fc.total_frames(), 0);
        assert_eq!(fc.frame_time(), RATE_SCALE / rate);
        assert_eq!(fc.avg_frame_time(), RATE_SCALE / rate);
        let fps: u64 = rate / 1000;
        let expected_capacity: u64 = if fps < 30 { 30 } else { fps };
        assert_eq!(fc.sample_capacity() as u64, expected_capacity);
    }
}

#[test]
fn test_default_counter() {
    let fc: FrameCounter<StdTimer> = Default::default();
    assert_eq!(fc.frame_rate(), 100_000);
    assert_eq!(fc.avg_frame_rate(), 100_000);
    assert_eq!(fc.total_frames(), 0);
    assert_eq!(fc.sample_capacity(), 100);
    // Identical to new(100_000): one period of 100 fps is ten million nanoseconds.
    assert_eq!(fc.frame_time(), 10_000_000);
    assert_eq!(fc.avg_frame_time(), 10_000_000);
}

#[test]
fn test_first_tick_counts_one_frame() {
    let mut fc = FrameCounter::<StdTimer>::new(100_000);
    let t0 = StdTimer::reference();
    wait_for_clock_advance(&t0);
    fc.tick();
    assert_eq!(fc.total_frames(), 1);
    assert!(fc.frame_time() > 0);
}

#[test]
fn test_duration_since_never_underflows_std() {
    let t = StdTimer::reference();
    assert_eq!(t.duration_since(&t), 0);
    let a = t.now();
    let b = a.now();
    assert_eq!(b.duration_since(&a), b.as_nanos().saturating_sub(a.as_nanos()));
    assert_eq!(a.duration_since(&b), a.as_nanos().saturating_sub(b.as_nanos()));
}

#[test]
fn test_duration_since_never_underflows_quanta() {
    let t = QuantaTimer::reference();
    assert_eq!(t.duration_since(&t), 0);
    let a = t.now();
    let b = a.now();
    assert_eq!(b.duration_since(&a), b.as_nanos().saturating_sub(a.as_nanos()));
    assert_eq!(a.duration_since(&b), a.as_nanos().saturating_sub(b.as_nanos()));
}

#[test]
fn test_duration_since_never_underflows_minstant() {
    let t = MInstantTimer::reference();
    assert_eq!(t.duration_since(&t), 0);
    let a = t.now();
    let b = a.now();
    assert_eq!(b.duration_since(&a), b.as_nanos().saturating_sub(a.as_nanos()));
    assert_eq!(a.duration_since(&b), a.as_nanos().saturating_sub(b.as_nanos()));
}

#[test]
fn test_wait_until_framerate_not_early() {
    let mut fc = FrameCounter::<StdTimer>::new(100_000);
    let t0 = StdTimer::reference();
    fc.tick();
    let waited = fc.wait_until_framerate(100_000);
    let t1 = t0.now();
    // One period of 100 fps is ten million nanoseconds.
    assert!(t1.duration_since(&t0) >= 10_000_000);
    match waited {
        Some((_, elapsed)) => assert!(elapsed >= 10_000_000),
        None => panic!("the clock never reached the deadline"),
    }
}

#[test]
fn test_wait_until_framerate_noop_before_first_tick() {
    let fc = FrameCounter::<StdTimer>::new(100_000);
    // One millihertz would mean a thousand-second wait; without a tick there
    // is no reference point and the call must return at once.
    assert!(fc.wait_until_framerate(1).is_none());
    assert_eq!(fc.total_frames(), 0);
}

#[test]
fn test_spin_until_elapsed_reaches_target() {
    let start = StdTimer::reference();
    let outcome = spin_until_elapsed::<StdTimer>(&start, 1_000_000);
    let end = start.now();
    match outcome {
        Some((witness, elapsed)) => {
            assert!(elapsed >= 1_000_000);
            assert_eq!(elapsed, witness.duration_since(&start));
        }
        None => panic!("the clock never reached the deadline"),
    }
    assert!(end.duration_since(&start) >= 1_000_000);
    // A zero-length period succeeds at the first poll.
    assert!(spin_until_elapsed::<StdTimer>(&start, 0).is_some());
}

#[test]
fn test_throttle_action_tiers() {
    // More than two milliseconds remaining: sleep.
    assert_eq!(throttle_action(0, 10_000_000), WaitAction::Sleep);
    assert_eq!(throttle_action(7_999_999, 10_000_000), WaitAction::Sleep);
    // Between a tenth of a millisecond and two milliseconds: yield.
    assert_eq!(throttle_action(8_000_000, 10_000_000), WaitAction::Yield);
    assert_eq!(throttle_action(9_899_999, 10_000_000), WaitAction::Yield);
    // Below a tenth of a millisecond: spin.
    assert_eq!(throttle_action(9_900_000, 10_000_000), WaitAction::Spin);
    assert_eq!(throttle_action(9_999_999, 10_000_000), WaitAction::Spin);
    // At or past the target: done.
    assert_eq!(throttle_action(10_000_000, 10_000_000), WaitAction::Done);
    assert_eq!(throttle_action(25_000_000, 10_000_000), WaitAction::Done);
}

#[test]
fn test_poll_throttle_matches_clock() {
    let start = StdTimer::reference();
    // A zero-length period has always fully elapsed.
    let (_, done, _) = poll_throttle::<StdTimer>(&start, 0);
    assert_eq!(done, WaitAction::Done);
    // A period that cannot have elapsed yet asks for a sleep, and the
    // elapsed time is the witness reading's own distance from the start.
    let (witness, action, elapsed) = poll_throttle::<StdTimer>(&start, u128::MAX);
    assert_eq!(action, WaitAction::Sleep);
    assert_eq!(elapsed, witness.duration_since(&start));
    assert!(elapsed < u128::MAX);
}

#[test]
fn test_rolling_average_tracks_newest_samples() {
    // Capacity is the 30-sample floor: five thousand millihertz is five fps.
    let mut fc = FrameCounter::<MInstantTimer>::new(5_000);
    assert_eq!(fc.sample_capacity(), 30);
    let mut samples: Vec<u64> = Vec::new();

    for _ in 0..30 {
        fc.tick();
        samples.push(fc.frame_time());
    }
    // After exactly one full pass the average is the mean of all 30 samples.
    let sum: u128 = samples.iter().map(|&s| s as u128).sum();
    assert_eq!(fc.avg_frame_time() as u128, sum / 30);

    for _ in 0..5 {
        fc.tick();
        samples.push(fc.frame_time());
    }
    // Five more ticks: the five oldest samples have been evicted.
    let recent: u128 = samples[5..35].iter().map(|&s| s as u128).sum();
    assert_eq!(fc.avg_frame_time() as u128, recent / 30);
}

#[test]
fn test_backends_count_frames() {
    let mut q = FrameCounter::<QuantaTimer>::new(60_000);
    q.tick();
    q.tick();
    assert_eq!(q.total_frames(), 2);
    assert_eq!(q.timer_backend(), "quanta (TSC)");

    let mut m = FrameCounter::<MInstantTimer>::new(60_000);
    m.tick();
    assert_eq!(m.total_frames(), 1);
    assert_eq!(m.timer_backend(), "minstant (TSC with fallback)");

    let mut s = FrameCounter::<StdTimer>::new(60_000);
    s.tick();
    assert_eq!(s.total_frames(), 1);
    assert_eq!(s.timer_backend(), "std::time::Instant");
}

#[test]
fn test_summary_before_first_tick() {
    let fc = FrameCounter::<StdTimer>::new(60_000);
    // Seeded with sixty fps: one frame is 16,666,666 nanoseconds.
    assert_eq!(
        fc.summary(),
        "avg: 60.00 fps (16.666ms); current: 60.00 fps (16.666ms) [std::time::Instant]"
    );
}
