use beatcore::detector::{AudioState, BeatDetector};

#[test]
fn velocity_rise_triggers_once() {
    // Energy trajectory 0, 10000, 10000, 10000 sampled 100 ms apart with a
    // velocity threshold of 5000: only the rising block is a beat; the flat
    // blocks are not, regardless of cooldown.
    let mut d = BeatDetector::new();
    assert!(!d.detect(0, 0));
    assert!(d.detect(10000, 100));
    assert!(!d.detect(10000, 200));
    assert!(!d.detect(10000, 300));
}

#[test]
fn cooldown_debounces_spikes() {
    let mut d = BeatDetector::new();
    // Spike at t=0 is reported.
    assert!(d.detect(6000, 0));
    // Spike at t=100 exceeds the threshold but falls inside the 200 ms
    // cooldown window.
    assert!(!d.detect(12000, 100));
    // Spike at t=250 is past the cooldown and is reported.
    assert!(d.detect(18000, 250));
}

#[test]
fn cooldown_boundary_is_strict() {
    let mut d = BeatDetector::new();
    assert!(d.detect(6000, 0));
    // Exactly 200 ms later is still inside the window (strictly more than
    // 200 ms must pass).
    assert!(!d.detect(12000, 200));
    let mut d2 = BeatDetector::new();
    assert!(d2.detect(6000, 0));
    assert!(d2.detect(12000, 201));
}

#[test]
fn velocity_threshold_is_strict() {
    let mut d = BeatDetector::new();
    // A rise of exactly the threshold is not a beat.
    assert!(!d.detect(5000, 0));
    let mut d2 = BeatDetector::new();
    assert!(d2.detect(5001, 0));
}

#[test]
fn falling_energy_never_triggers() {
    let mut d = BeatDetector::new();
    assert!(d.detect(9000, 0));
    assert!(!d.detect(100, 300));
    assert!(!d.detect(0, 600));
}

#[test]
fn reset_behaves_like_fresh_state() {
    let trajectory: [(u64, u64); 6] =
        [(0, 0), (10000, 100), (10000, 200), (2000, 300), (9000, 400), (9000, 650)];

    // Dirty a detector with some history, then reset it.
    let mut reset_d = BeatDetector::new();
    reset_d.detect(30000, 0);
    reset_d.detect(1000, 50);
    reset_d.reset();

    let mut fresh_d = BeatDetector::new();

    for &(energy, t) in trajectory.iter() {
        let a = reset_d.detect(energy, t);
        let b = fresh_d.detect(energy, t);
        assert_eq!(a, b);
    }
}

#[test]
fn reset_forgets_last_energy_and_trigger() {
    let mut d = BeatDetector::new();
    assert!(d.detect(20000, 0));
    d.reset();
    // Without the reset, velocity would be negative and the cooldown would
    // still be running; after it, the same spike triggers again at once.
    assert!(d.detect(6000, 10));
}

#[test]
fn audio_state_starts_with_fresh_detector() {
    let mut state = AudioState::new();
    assert!(state.beat_detector.detect(6000, 0));
}
