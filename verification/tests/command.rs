use player_bridge::command::{
    add_subtitle_command, control_ops, dispatch, launch_ops, load_command, lowered_names_subtitle,
    names_subtitle, quit_command, redraw_nudge,
    reload_subtitles_command, seek_command, select_track_setting, settle, Control, START_THRESHOLD, ZOOM_NUDGE,
};
use player_bridge::error::BridgeError;
use player_bridge::port::{Command, EngineOp, Key, Scalar, Setting, Verb, Word};

fn strings(items: &[&str]) -> Vec<String> {
    items.iter().map(|s| s.to_string()).collect()
}

fn command(verb: Verb, args: &[&str]) -> Command {
    Command { verb, args: strings(args) }
}

fn to_millionths(seconds: f64) -> i64 {
    (seconds * 1_000_000.0).round() as i64
}

#[test]
fn plain_load() {
    assert_eq!(load_command("http://host/a.mkv", None, None), command(Verb::LoadFile, &["http://host/a.mkv", "replace"]));
    assert_eq!(load_command("", Some(0), Some(false)), command(Verb::LoadFile, &["", "replace"]));
}

#[test]
fn load_with_start_and_pause() {
    assert_eq!(
        load_command("u", Some(to_millionths(12.5)), Some(true)),
        command(Verb::LoadFile, &["u", "replace", "start=12.500", "pause=yes"])
    );
    assert_eq!(load_command("u", None, Some(true)), command(Verb::LoadFile, &["u", "replace", "pause=yes"]));
    assert_eq!(
        load_command("u", Some(to_millionths(3725.0004)), None),
        command(Verb::LoadFile, &["u", "replace", "start=3725.000"])
    );
}

#[test]
fn start_counts_only_above_the_threshold() {
    assert_eq!(START_THRESHOLD, 200_000);
    assert_eq!(load_command("u", Some(200_000), None).args, strings(&["u", "replace"]));
    assert_eq!(load_command("u", Some(-5_000_000), None).args, strings(&["u", "replace"]));
    assert_eq!(load_command("u", Some(200_001), None).args, strings(&["u", "replace", "start=0.200"]));
    assert_eq!(load_command("u", Some(to_millionths(0.25)), None).args, strings(&["u", "replace", "start=0.250"]));
}

#[test]
fn start_is_rounded_to_thousandths() {
    let expected: Vec<(f64, i64)> = vec![(0.3125, 312_500), (0.3135, 313_500), (1.0006, 1_000_600), (9.9996, 9_999_600)];
    for (seconds, millionths) in expected {
        let text = format!("start={:.3}", seconds);
        assert_eq!(load_command("u", Some(millionths), None).args[2], text);
    }
    assert_eq!(load_command("u", Some(312_500), None).args[2], "start=0.312");
    assert_eq!(load_command("u", Some(313_500), None).args[2], "start=0.314");
    assert_eq!(load_command("u", Some(312_501), None).args[2], "start=0.313");
    assert_eq!(load_command("u", Some(i64::MAX), None).args[2], "start=9223372036854.776");
}

#[test]
fn launch_loads_before_it_adds_the_subtitle() {
    let ops = launch_ops("movie", Some("subs.srt"), Some(5_000_000), Some(true));
    assert_eq!(
        ops,
        vec![
            EngineOp::Run(command(Verb::LoadFile, &["movie", "replace", "start=5.000", "pause=yes"])),
            EngineOp::Run(command(Verb::SubAdd, &["subs.srt", "select"])),
        ]
    );
}

#[test]
fn launch_without_a_subtitle_only_loads() {
    let load = vec![EngineOp::Run(command(Verb::LoadFile, &["movie", "replace"]))];
    assert_eq!(launch_ops("movie", None, None, None), load);
    assert_eq!(launch_ops("movie", Some(""), None, None), load);
}

#[test]
fn subtitle_commands() {
    assert_eq!(add_subtitle_command("s.vtt", None), command(Verb::SubAdd, &["s.vtt", "auto"]));
    assert_eq!(add_subtitle_command("s.vtt", Some("English")), command(Verb::SubAdd, &["s.vtt", "auto", "English"]));
    assert_eq!(add_subtitle_command("s.vtt", Some("")), command(Verb::SubAdd, &["s.vtt", "auto", ""]));
    assert_eq!(reload_subtitles_command(), command(Verb::SubReload, &[]));
}

#[test]
fn seek_and_quit() {
    let cases: Vec<f64> = vec![12.5, 10.0, 0.0, 0.25, 3600.000001, -1.5, 0.1, 100.125];
    for seconds in cases {
        let text = seconds.to_string();
        assert_eq!(seek_command(to_millionths(seconds)), command(Verb::Seek, &[text.as_str(), "absolute"]));
    }
    assert_eq!(seek_command(i64::MIN).args[0], "-9223372036854.775808");
    assert_eq!(quit_command(), command(Verb::Quit, &["0"]));
}

#[test]
fn track_selection() {
    assert_eq!(select_track_setting(-1), Setting { key: Key::SubtitleId, value: Scalar::Word(Word::No) });
    assert_eq!(select_track_setting(i64::MIN), Setting { key: Key::SubtitleId, value: Scalar::Word(Word::No) });
    assert_eq!(select_track_setting(0), Setting { key: Key::SubtitleId, value: Scalar::Integer(0) });
    assert_eq!(select_track_setting(3), Setting { key: Key::SubtitleId, value: Scalar::Integer(3) });
}

#[test]
fn nudge_moves_the_zoom_and_puts_it_back() {
    assert_eq!(ZOOM_NUDGE, 100);
    let zoom = |value: i64| EngineOp::Write(Setting { key: Key::VideoZoom, value: Scalar::Millionths(value) });
    let seek = EngineOp::Run(command(Verb::Seek, &["+0", "relative"]));
    assert_eq!(redraw_nudge(0), vec![zoom(100), zoom(0), seek.clone()]);
    assert_eq!(redraw_nudge(-250_000), vec![zoom(-249_900), zoom(-250_000), seek.clone()]);
    assert_eq!(redraw_nudge(i64::MAX), vec![zoom(i64::MAX - 100), zoom(i64::MAX), seek.clone()]);
    assert_eq!(redraw_nudge(i64::MAX - 100), vec![zoom(i64::MAX), zoom(i64::MAX - 100), seek]);
}

fn all_controls() -> Vec<Control> {
    vec![
        Control::PlayPause(true),
        Control::Seek(1_500_000),
        Control::SetVolume(55),
        Control::SetFullscreen(true),
        Control::SelectTrack(-1),
        Control::AddTrack { url: "s.srt".to_string(), title: Some("T".to_string()) },
        Control::ReloadTracks,
        Control::SetSubtitleStyle { scale: Some(1_250_000), position: Some(90) },
    ]
}

#[test]
fn controls_on_a_running_engine() {
    let write = |key: Key, value: Scalar| EngineOp::Write(Setting { key, value });
    let expected = vec![
        vec![write(Key::Pause, Scalar::Flag(true))],
        vec![EngineOp::Run(command(Verb::Seek, &["1.5", "absolute"]))],
        vec![write(Key::Volume, Scalar::Integer(55))],
        vec![write(Key::Fullscreen, Scalar::Flag(true))],
        vec![write(Key::SubtitleId, Scalar::Word(Word::No))],
        vec![EngineOp::Run(command(Verb::SubAdd, &["s.srt", "auto", "T"]))],
        vec![EngineOp::Run(command(Verb::SubReload, &[]))],
        vec![write(Key::SubtitleScale, Scalar::Millionths(1_250_000)), write(Key::SubtitlePosition, Scalar::Integer(90))],
    ];
    for (control, ops) in all_controls().iter().zip(expected) {
        assert_eq!(control_ops(control), ops);
        assert_eq!(dispatch(true, control), Ok(ops));
    }
}

#[test]
fn subtitle_style_writes_only_what_is_given() {
    let style = |scale, position| control_ops(&Control::SetSubtitleStyle { scale, position });
    assert_eq!(style(None, None), vec![]);
    assert_eq!(style(Some(5), None), vec![EngineOp::Write(Setting { key: Key::SubtitleScale, value: Scalar::Millionths(5) })]);
    assert_eq!(style(None, Some(-3)), vec![EngineOp::Write(Setting { key: Key::SubtitlePosition, value: Scalar::Integer(-3) })]);
}

#[test]
fn controls_without_a_session() {
    for control in all_controls() {
        let plan = dispatch(false, &control);
        match control {
            Control::AddTrack { .. } | Control::ReloadTracks => {
                assert_eq!(plan, Err(BridgeError::NotActive));
                assert_eq!(plan.unwrap_err().message(), "Player not active");
            }
            _ => assert_eq!(plan, Ok(vec![])),
        }
    }
}

#[test]
fn only_pause_and_volume_report_failure() {
    for control in all_controls() {
        assert_eq!(settle(&control, None), Ok(()));
        let outcome = settle(&control, Some("Raw(-9)".to_string()));
        match control {
            Control::PlayPause(_) | Control::SetVolume(_) => {
                assert_eq!(outcome, Err(BridgeError::Property("Raw(-9)".to_string())));
                assert_eq!(outcome.unwrap_err().message(), "Raw(-9)");
            }
            _ => assert_eq!(outcome, Ok(())),
        }
    }
}

#[test]
fn subtitle_addresses() {
    for url in ["http://h/a.srt", "http://h/a.SRT", "a.Vtt?x=1", ".srt", "x.vtt.mkv", "http://h/.SRT/movie.mkv"] {
        assert!(names_subtitle(url), "{}", url);
    }
    for url in ["", "http://h/a.mkv", "srt", "a.sr", "a.s rt", "a.vt", "vtt."] {
        assert!(!names_subtitle(url), "{}", url);
    }
    assert!(!lowered_names_subtitle("A.SRT"));
    assert!(lowered_names_subtitle("a.srt"));
}
