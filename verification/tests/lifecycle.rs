use player_bridge::backend::{candidate_list, Arch, Candidate, Platform, SurfaceKind, SurfaceOverride};
use player_bridge::command::{launch_ops, redraw_nudge};
use player_bridge::lifecycle::{launch_engine_ops, resize_engine_ops, LaunchStep, Lifecycle, Phase, Session};
use player_bridge::port::Verb;
use player_bridge::quality::QualityProfile;
use player_bridge::surface::{SurfaceHandles, SurfaceOp};

fn candidate(kind: SurfaceKind) -> Candidate {
    let choice = match kind {
        SurfaceKind::Layer => SurfaceOverride::ForceLayer,
        SurfaceKind::View => SurfaceOverride::ForceView,
    };
    candidate_list(Platform { arch: Arch::Other, surface_override: choice, legacy_layer_output: false })[0]
}

fn session(engine: &'static str, kind: SurfaceKind) -> Session<&'static str> {
    Session { engine, surface: SurfaceHandles { layer: 0x1000, view: 0x2000 }, bound: candidate(kind), quality: None }
}

fn active(engine: &'static str, kind: SurfaceKind) -> Lifecycle<&'static str> {
    let mut lifecycle = Lifecycle::new();
    assert_eq!(lifecycle.begin_launch(), LaunchStep::Provision);
    assert!(lifecycle.commit(session(engine, kind)).is_none());
    lifecycle
}

#[test]
fn a_launch_goes_through_initializing_to_active() {
    let mut lifecycle: Lifecycle<&'static str> = Lifecycle::new();
    assert_eq!(lifecycle.phase(), Phase::Uninitialized);
    assert!(!lifecycle.is_active());
    assert!(lifecycle.session().is_none());
    assert_eq!(lifecycle.begin_launch(), LaunchStep::Provision);
    assert_eq!(lifecycle.phase(), Phase::Initializing);
    assert!(lifecycle.session().is_none());
    assert!(lifecycle.commit(session("engine", SurfaceKind::Layer)).is_none());
    assert_eq!(lifecycle.phase(), Phase::Active);
    assert!(lifecycle.is_active());
    assert_eq!(lifecycle.session().map(|s| s.engine), Some("engine"));
}

#[test]
fn launches_while_active_reuse_the_session() {
    let mut lifecycle = active("first", SurfaceKind::Layer);
    for _ in 0..5 {
        assert_eq!(lifecycle.begin_launch(), LaunchStep::Reuse);
        assert_eq!(lifecycle.phase(), Phase::Active);
        assert_eq!(lifecycle.session().map(|s| s.engine), Some("first"));
    }
    let rejected = lifecycle.commit(session("second", SurfaceKind::View));
    assert_eq!(rejected.map(|s| s.engine), Some("second"));
    assert_eq!(lifecycle.session().map(|s| s.engine), Some("first"));
    assert_eq!(lifecycle.session().map(|s| s.bound.kind), Some(SurfaceKind::Layer));
}

#[test]
fn a_failed_launch_leaves_nothing_behind() {
    let mut lifecycle: Lifecycle<&'static str> = Lifecycle::new();
    assert_eq!(lifecycle.begin_launch(), LaunchStep::Provision);
    assert_eq!(lifecycle.begin_launch(), LaunchStep::Busy);
    lifecycle.abort_launch();
    assert_eq!(lifecycle.phase(), Phase::Uninitialized);
    assert!(lifecycle.session().is_none());
    assert_eq!(lifecycle.begin_launch(), LaunchStep::Provision);
    lifecycle.abort_launch();
    let rejected = lifecycle.commit(session("stray", SurfaceKind::Layer));
    assert_eq!(rejected.map(|s| s.engine), Some("stray"));
    assert_eq!(lifecycle.phase(), Phase::Uninitialized);
}

#[test]
fn close_tears_the_session_down() {
    let mut lifecycle = active("engine", SurfaceKind::View);
    let teardown = lifecycle.begin_close().expect("a session to tear down");
    assert_eq!(teardown.session.engine, "engine");
    assert_eq!(teardown.session.surface, SurfaceHandles { layer: 0x1000, view: 0x2000 });
    assert_eq!(teardown.quit.verb, Verb::Quit);
    assert_eq!(teardown.quit.args, vec!["0".to_string()]);
    assert_eq!(teardown.removal, vec![SurfaceOp::Detach]);
    assert_eq!(lifecycle.phase(), Phase::Closing);
    assert!(lifecycle.session().is_none());
    assert_eq!(lifecycle.begin_launch(), LaunchStep::Busy);
    lifecycle.finish_close();
    assert_eq!(lifecycle.phase(), Phase::Uninitialized);
    assert_eq!(lifecycle.begin_launch(), LaunchStep::Provision);
}

#[test]
fn close_twice_and_close_without_a_session() {
    let mut never: Lifecycle<&'static str> = Lifecycle::new();
    assert!(never.begin_close().is_none());
    never.finish_close();
    assert!(never.begin_close().is_none());
    never.finish_close();
    assert_eq!(never.phase(), Phase::Uninitialized);
    let mut lifecycle = active("engine", SurfaceKind::Layer);
    assert!(lifecycle.begin_close().is_some());
    lifecycle.finish_close();
    assert!(lifecycle.begin_close().is_none());
    lifecycle.finish_close();
    assert_eq!(lifecycle.phase(), Phase::Uninitialized);
    assert!(lifecycle.session().is_none());
}

#[test]
fn steps_out_of_turn_change_nothing() {
    let mut lifecycle = active("engine", SurfaceKind::Layer);
    lifecycle.abort_launch();
    lifecycle.finish_close();
    assert_eq!(lifecycle.phase(), Phase::Active);
    assert_eq!(lifecycle.session().map(|s| s.engine), Some("engine"));
}

#[test]
fn resize_follows_the_bound_kind() {
    let idle: Lifecycle<&'static str> = Lifecycle::new();
    assert_eq!(idle.resize_plan(), vec![]);
    assert_eq!(
        active("e", SurfaceKind::Layer).resize_plan(),
        vec![
            SurfaceOp::TrackParent,
            SurfaceOp::MatchParentBounds,
            SurfaceOp::ResizeLayer,
            SurfaceOp::ResizeDrawable,
            SurfaceOp::RedrawLayer,
            SurfaceOp::LayoutNow,
        ]
    );
    assert_eq!(
        active("e", SurfaceKind::View).resize_plan(),
        vec![SurfaceOp::TrackParent, SurfaceOp::MatchParentBounds, SurfaceOp::RelayoutView, SurfaceOp::LayoutNow]
    );
    let mut closed = active("e", SurfaceKind::View);
    closed.begin_close();
    assert_eq!(closed.resize_plan(), vec![]);
}

#[test]
fn the_last_quality_profile_is_noted() {
    let mut lifecycle = active("engine", SurfaceKind::Layer);
    assert_eq!(lifecycle.session().map(|s| s.quality), Some(None));
    lifecycle.note_quality(QualityProfile::Smooth);
    assert_eq!(lifecycle.session().map(|s| s.quality), Some(Some(QualityProfile::Smooth)));
    lifecycle.note_quality(QualityProfile::Quality);
    assert_eq!(lifecycle.session().map(|s| (s.engine, s.quality)), Some(("engine", Some(QualityProfile::Quality))));
    assert_eq!(lifecycle.phase(), Phase::Active);
    let mut idle: Lifecycle<&'static str> = Lifecycle::new();
    idle.note_quality(QualityProfile::Quality);
    assert!(idle.session().is_none());
    assert_eq!(idle.phase(), Phase::Uninitialized);
}

#[test]
fn a_launch_loads_unless_one_is_under_way() {
    let expected = launch_ops("movie", Some("subs.srt"), Some(5_000_000), Some(true));
    assert_eq!(expected.len(), 2);
    for step in [LaunchStep::Provision, LaunchStep::Reuse] {
        assert_eq!(launch_engine_ops(step, "movie", Some("subs.srt"), Some(5_000_000), Some(true)), expected);
        assert_eq!(launch_engine_ops(step, "movie", None, None, None), launch_ops("movie", None, None, None));
    }
    assert_eq!(launch_engine_ops(LaunchStep::Busy, "movie", Some("subs.srt"), Some(5_000_000), Some(true)), vec![]);
}

#[test]
fn the_nudge_goes_out_only_with_a_session() {
    assert_eq!(resize_engine_ops(false, 250_000), vec![]);
    assert_eq!(resize_engine_ops(true, 250_000), redraw_nudge(250_000));
    assert_eq!(resize_engine_ops(true, 0).len(), 3);
}
