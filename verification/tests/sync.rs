use player_bridge::port::Reply;
use player_bridge::sync::{
    changed, sample_from_replies, Sample, SyncStep, Synchronizer, DURATION_THRESHOLD, POLL_INTERVAL_MS,
    POSITION_THRESHOLD,
};

fn sample(position: f64, duration: f64, paused: bool) -> Sample {
    Sample {
        position: (position * 1_000_000.0).round() as i64,
        duration: (duration * 1_000_000.0).round() as i64,
        paused,
    }
}

#[test]
fn thresholds() {
    assert_eq!(POSITION_THRESHOLD, 400_000);
    assert_eq!(DURATION_THRESHOLD, 100_000);
    assert_eq!(POLL_INTERVAL_MS, 500);
}

#[test]
fn a_jump_of_nine_tenths_is_told() {
    let mut sync = Synchronizer::new();
    assert_eq!(sync.observe(Some(sample(10.0, 100.0, false))), SyncStep::Emit(sample(10.0, 100.0, false)));
    assert_eq!(sync.observe(Some(sample(10.9, 100.0, false))), SyncStep::Emit(sample(10.9, 100.0, false)));
    assert_eq!(sync.last, Some(sample(10.9, 100.0, false)));
}

#[test]
fn a_step_of_two_tenths_is_not_told() {
    let mut sync = Synchronizer::new();
    assert_eq!(sync.observe(Some(sample(10.0, 100.0, false))), SyncStep::Emit(sample(10.0, 100.0, false)));
    assert_eq!(sync.observe(Some(sample(10.2, 100.0, false))), SyncStep::Quiet);
    assert_eq!(sync.last, Some(sample(10.2, 100.0, false)));
    assert!(!sync.stopped);
}

#[test]
fn each_sample_is_held_against_the_one_before() {
    let mut sync = Synchronizer::new();
    assert_eq!(sync.observe(Some(sample(10.0, 100.0, false))), SyncStep::Emit(sample(10.0, 100.0, false)));
    assert_eq!(sync.observe(Some(sample(10.3, 100.0, false))), SyncStep::Quiet);
    assert_eq!(sync.observe(Some(sample(10.6, 100.0, false))), SyncStep::Quiet);
    assert_eq!(sync.last, Some(sample(10.6, 100.0, false)));
    let mut other = Synchronizer::new();
    assert_eq!(other.observe(Some(sample(9.7, 100.0, false))), SyncStep::Emit(sample(9.7, 100.0, false)));
    assert_eq!(other.observe(Some(sample(10.0, 100.0, false))), SyncStep::Quiet);
    assert_eq!(other.observe(Some(sample(10.2, 100.0, false))), SyncStep::Quiet);
    assert_eq!(other.observe(Some(sample(10.9, 100.0, false))), SyncStep::Emit(sample(10.9, 100.0, false)));
    assert_eq!(other.observe(Some(sample(10.9, 100.0, true))), SyncStep::Emit(sample(10.9, 100.0, true)));
    assert_eq!(other.observe(Some(sample(10.9, 100.2, true))), SyncStep::Emit(sample(10.9, 100.2, true)));
    assert_eq!(other.observe(Some(sample(10.9, 100.2, true))), SyncStep::Quiet);
}

#[test]
fn what_counts_as_a_change() {
    let told = Some(sample(10.0, 100.0, false));
    assert!(changed(None, sample(0.0, 0.0, false)));
    assert!(!changed(told, sample(10.0, 100.0, false)));
    assert!(!changed(told, sample(10.4, 100.0, false)));
    assert!(changed(told, sample(10.400001, 100.0, false)));
    assert!(!changed(told, sample(9.6, 100.0, false)));
    assert!(changed(told, sample(9.599999, 100.0, false)));
    assert!(!changed(told, sample(10.0, 100.1, false)));
    assert!(changed(told, sample(10.0, 100.100001, false)));
    assert!(changed(told, sample(10.0, 99.8, false)));
    assert!(changed(told, sample(10.0, 100.0, true)));
    let far = Sample { position: i64::MAX, duration: i64::MIN, paused: false };
    let back = Sample { position: i64::MIN, duration: i64::MIN, paused: false };
    assert!(changed(Some(far), back));
    assert!(!changed(Some(far), far));
}

#[test]
fn the_loop_ends_for_good_when_the_session_is_gone() {
    let mut sync = Synchronizer::new();
    sync.observe(Some(sample(1.0, 2.0, false)));
    assert_eq!(sync.observe(None), SyncStep::Stop);
    assert!(sync.stopped);
    assert_eq!(sync.observe(Some(sample(50.0, 2.0, true))), SyncStep::Stop);
    assert_eq!(sync.observe(None), SyncStep::Stop);
    assert_eq!(sync.last, Some(sample(1.0, 2.0, false)));
    let mut fresh = Synchronizer::new();
    assert_eq!(fresh.observe(None), SyncStep::Stop);
    assert_eq!(fresh.observe(Some(sample(1.0, 2.0, false))), SyncStep::Stop);
}

#[test]
fn samples_from_replies() {
    let replies = vec![Reply::Millionths(10_900_000), Reply::Millionths(100_000_000), Reply::Flag(true)];
    assert_eq!(sample_from_replies(&replies), sample(10.9, 100.0, true));
    assert_eq!(sample_from_replies(&Vec::new()), sample(0.0, 0.0, false));
    assert_eq!(sample_from_replies(&vec![Reply::Missing, Reply::Millionths(5), Reply::Integer(1)]), Sample { position: 0, duration: 5, paused: false });
}
