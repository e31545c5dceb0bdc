use player_bridge::backend::{candidate_list, Arch, Platform, SurfaceKind, SurfaceOverride};
use player_bridge::launcher::{Attempt, Launcher};

#[test]
fn third_candidate_wins_after_two_failures() {
    let platform = Platform { arch: Arch::Intel, surface_override: SurfaceOverride::Unset, legacy_layer_output: false };
    let candidates = candidate_list(platform);
    assert_eq!(candidates.len(), 3);
    let third = candidates[2];
    let mut launcher = Launcher::new(candidates.clone());
    assert_eq!(launcher.current(), Some(candidates[0]));
    launcher.record(Attempt::Failed("first".to_string()));
    assert_eq!(launcher.current(), Some(candidates[1]));
    launcher.record(Attempt::Failed("second".to_string()));
    assert_eq!(launcher.current(), Some(third));
    launcher.record(Attempt::Started);
    assert_eq!(launcher.current(), None);
    assert_eq!(launcher.chosen(), Some(third));
    assert_eq!(third.kind, SurfaceKind::Layer);
    assert!(!launcher.exhausted());
    assert_eq!(launcher.last_failure(), "second");
}

#[test]
fn first_success_stops_the_launcher() {
    let platform = Platform { arch: Arch::Other, surface_override: SurfaceOverride::ForceView, legacy_layer_output: false };
    let candidates = candidate_list(platform);
    let mut launcher = Launcher::new(candidates.clone());
    launcher.record(Attempt::Started);
    assert_eq!(launcher.chosen(), Some(candidates[0]));
    assert_eq!(launcher.current(), None);
    launcher.record(Attempt::Failed("late".to_string()));
    launcher.record(Attempt::Started);
    assert_eq!(launcher.chosen(), Some(candidates[0]));
    assert_eq!(launcher.last_failure(), "");
    assert!(!launcher.exhausted());
}

#[test]
fn all_failures_exhaust_the_launcher() {
    let platform = Platform { arch: Arch::Other, surface_override: SurfaceOverride::ForceView, legacy_layer_output: false };
    let candidates = candidate_list(platform);
    let mut launcher = Launcher::new(candidates.clone());
    let mut offered = Vec::new();
    let mut turn = 0;
    while let Some(candidate) = launcher.current() {
        offered.push(candidate);
        launcher.record(Attempt::Failed(format!("Raw({})", turn)));
        turn += 1;
    }
    assert_eq!(offered, candidates);
    assert!(launcher.exhausted());
    assert_eq!(launcher.chosen(), None);
    assert_eq!(launcher.last_failure(), "Raw(3)");
    launcher.record(Attempt::Started);
    assert!(launcher.exhausted());
    assert_eq!(launcher.chosen(), None);
}

#[test]
fn a_launcher_without_candidates_is_exhausted() {
    let mut launcher = Launcher::new(Vec::new());
    assert_eq!(launcher.current(), None);
    assert!(launcher.exhausted());
    launcher.record(Attempt::Started);
    assert_eq!(launcher.chosen(), None);
    assert_eq!(launcher.last_failure(), "");
}
