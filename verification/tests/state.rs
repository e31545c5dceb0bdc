use player_bridge::port::{Format, Key, Reply};
use player_bridge::state::{current_state, idle_state, state_from_replies, state_probes, PlaybackState, Probe};

#[test]
fn idle_snapshot() {
    let state = idle_state();
    assert_eq!(state.position, 0);
    assert_eq!(state.duration, 0);
    assert!(state.paused);
    assert_eq!(state.hwdec, "no");
    assert_eq!(state.subtitle_id, -1);
    assert_eq!(state.volume, 100);
    assert_eq!(state.osd_width, -1);
    assert_eq!(state.osd_height, -1);
    assert_eq!(state.output_width, -1);
    assert_eq!(state.output_height, -1);
    assert_eq!(current_state(None), state);
}

#[test]
fn probes_in_order() {
    let names: Vec<(&str, Format)> = state_probes().iter().map(|Probe { key, format }| (key.name(), *format)).collect();
    assert_eq!(
        names,
        vec![
            ("time-pos", Format::Decimal),
            ("duration", Format::Decimal),
            ("pause", Format::Flag),
            ("hwdec-current", Format::Text),
            ("sid", Format::Integer),
            ("volume", Format::Integer),
            ("osd-width", Format::Integer),
            ("osd-height", Format::Integer),
            ("video-out-params/dw", Format::Integer),
            ("video-out-params/dh", Format::Integer),
        ]
    );
    assert_eq!(state_probes()[0].key, Key::TimePosition);
}

#[test]
fn snapshot_of_a_running_session() {
    let replies = vec![
        Reply::Millionths(12_500_000),
        Reply::Millionths(5_400_000_000),
        Reply::Flag(true),
        Reply::Text("videotoolbox".to_string()),
        Reply::Integer(2),
        Reply::Integer(80),
        Reply::Integer(1920),
        Reply::Integer(1080),
        Reply::Integer(3840),
        Reply::Integer(2160),
    ];
    let expected = PlaybackState {
        position: 12_500_000,
        duration: 5_400_000_000,
        paused: true,
        hwdec: "videotoolbox".to_string(),
        subtitle_id: 2,
        volume: 80,
        osd_width: 1920,
        osd_height: 1080,
        output_width: 3840,
        output_height: 2160,
    };
    assert_eq!(state_from_replies(&replies), expected);
    assert_eq!(current_state(Some(&replies)), expected);
}

#[test]
fn failed_reads_count_as_defaults() {
    let expected = PlaybackState {
        position: 0,
        duration: 0,
        paused: false,
        hwdec: "no".to_string(),
        subtitle_id: -1,
        volume: 100,
        osd_width: -1,
        osd_height: -1,
        output_width: -1,
        output_height: -1,
    };
    assert_eq!(state_from_replies(&vec![Reply::Missing; 10]), expected);
    assert_eq!(state_from_replies(&Vec::new()), expected);
    assert_eq!(current_state(Some(&Vec::new())), expected);
    let wrong_types = vec![
        Reply::Integer(5),
        Reply::Flag(true),
        Reply::Integer(1),
        Reply::Integer(0),
        Reply::Millionths(7),
        Reply::Text("9".to_string()),
        Reply::Flag(false),
    ];
    assert_eq!(state_from_replies(&wrong_types), expected);
}

#[test]
fn replies_are_read_by_place() {
    let replies = vec![Reply::Millionths(1), Reply::Missing, Reply::Flag(true), Reply::Missing, Reply::Integer(4)];
    let state = state_from_replies(&replies);
    assert_eq!((state.position, state.duration, state.paused, state.subtitle_id, state.volume), (1, 0, true, 4, 100));
    assert_eq!(Reply::Flag(true).flag_or(false), true);
    assert_eq!(Reply::Integer(3).flag_or(true), true);
    assert_eq!(Reply::Integer(3).integer_or(9), 3);
    assert_eq!(Reply::Millionths(3).integer_or(9), 9);
    assert_eq!(Reply::Millionths(3).millionths_or(9), 3);
    assert_eq!(Reply::Text("x".to_string()).text_or("d"), "x");
    assert_eq!(Reply::Missing.text_or("d"), "d");
}
