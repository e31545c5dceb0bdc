use player_bridge::command::{add_subtitle_command, select_track_setting};
use player_bridge::port::{Format, Key, Reply, Scalar, Verb, Word};
use player_bridge::tracks::{
    is_subtitle_kind, listing, row_count, subtitle_tracks, track_property, SubtitleTrack, TrackField, TrackRow,
};

fn row(kind: &str, id: i64, lang: &str, title: &str, selected: bool, external: bool) -> TrackRow {
    TrackRow {
        kind: Reply::Text(kind.to_string()),
        id: Reply::Integer(id),
        lang: Reply::Text(lang.to_string()),
        title: Reply::Text(title.to_string()),
        selected: Reply::Flag(selected),
        external: Reply::Flag(external),
    }
}

fn other(kind: &str) -> TrackRow {
    TrackRow {
        kind: Reply::Text(kind.to_string()),
        id: Reply::Missing,
        lang: Reply::Missing,
        title: Reply::Missing,
        selected: Reply::Missing,
        external: Reply::Missing,
    }
}

#[test]
fn property_names() {
    assert_eq!(track_property(0, TrackField::Kind), "track-list/0/type");
    assert_eq!(track_property(7, TrackField::Id), "track-list/7/id");
    assert_eq!(track_property(12, TrackField::Language), "track-list/12/lang");
    assert_eq!(track_property(120, TrackField::Title), "track-list/120/title");
    assert_eq!(track_property(3, TrackField::Selected), "track-list/3/selected");
    assert_eq!(track_property(1005, TrackField::External), "track-list/1005/external");
    assert_eq!(track_property(usize::MAX, TrackField::Id), format!("track-list/{}/id", usize::MAX));
    assert_eq!(TrackField::Kind.format(), Format::Text);
    assert_eq!(TrackField::Id.format(), Format::Integer);
    assert_eq!(TrackField::Language.format(), Format::Text);
    assert_eq!(TrackField::Title.format(), Format::Text);
    assert_eq!(TrackField::Selected.format(), Format::Flag);
    assert_eq!(TrackField::External.format(), Format::Flag);
    assert_eq!(Key::TrackCount.name(), "track-list/count");
}

#[test]
fn row_counts() {
    assert_eq!(row_count(&Reply::Integer(4)), 4);
    assert_eq!(row_count(&Reply::Integer(0)), 0);
    assert_eq!(row_count(&Reply::Integer(-2)), 0);
    assert_eq!(row_count(&Reply::Missing), 0);
    assert_eq!(row_count(&Reply::Millionths(4)), 0);
    assert_eq!(row_count(&Reply::Integer(i64::MAX)), i64::MAX as u64);
}

#[test]
fn only_subtitle_rows_are_listed_in_order() {
    let rows = vec![
        other("video"),
        row("sub", 1, "en", "English", true, false),
        other("audio"),
        row("sub", 2, "de", "", false, true),
        row("audio", 3, "fr", "x", true, true),
    ];
    let tracks = subtitle_tracks(&rows);
    assert_eq!(
        tracks,
        vec![
            SubtitleTrack { id: 1, lang: "en".into(), title: "English".into(), selected: true, external: false, index: 1 },
            SubtitleTrack { id: 2, lang: "de".into(), title: "".into(), selected: false, external: true, index: 3 },
        ]
    );
    assert_eq!(listing(Some(&rows)), tracks);
}

#[test]
fn unread_fields_count_as_defaults() {
    let rows = vec![other("sub")];
    assert_eq!(
        subtitle_tracks(&rows),
        vec![SubtitleTrack { id: 0, lang: "".into(), title: "".into(), selected: false, external: false, index: 0 }]
    );
    assert!(rows[0].is_subtitle());
    assert_eq!(rows[0].track(9).index, 9);
}

#[test]
fn kinds() {
    assert!(is_subtitle_kind(&Reply::Text("sub".to_string())));
    assert!(!is_subtitle_kind(&Reply::Text("Sub".to_string())));
    assert!(!is_subtitle_kind(&Reply::Text("".to_string())));
    assert!(!is_subtitle_kind(&Reply::Text("subs".to_string())));
    assert!(!is_subtitle_kind(&Reply::Missing));
    assert!(!is_subtitle_kind(&Reply::Integer(1)));
    assert!(!other("video").is_subtitle());
}

#[test]
fn nothing_is_listed_without_a_session_or_rows() {
    assert_eq!(listing(None), vec![]);
    assert_eq!(listing(Some(&Vec::new())), vec![]);
    assert_eq!(subtitle_tracks(&vec![other("video"), other("audio")]), vec![]);
}

/// An engine that keeps a track table and does what it is told.
struct TableEngine {
    rows: Vec<TrackRow>,
}

impl TableEngine {
    fn write_subtitle_id(&mut self, value: Scalar) {
        for row in self.rows.iter_mut() {
            if row.kind == Reply::Text("sub".to_string()) {
                let hit = match value {
                    Scalar::Integer(id) => row.id == Reply::Integer(id),
                    _ => false,
                };
                row.selected = Reply::Flag(hit);
            }
        }
    }

    fn sub_add(&mut self, args: &[String]) {
        let id = self.rows.len() as i64 + 1;
        let title = args.get(2).cloned().unwrap_or_default();
        self.rows.push(row("sub", id, "", &title, args[1] == "select", true));
    }
}

#[test]
fn switching_subtitles_off_leaves_nothing_selected() {
    let mut engine = TableEngine { rows: vec![other("video"), row("sub", 1, "en", "", true, false), row("sub", 2, "de", "", false, false)] };
    assert!(subtitle_tracks(&engine.rows).iter().any(|t| t.selected));
    let setting = select_track_setting(-1);
    assert_eq!(setting.key, Key::SubtitleId);
    assert_eq!(setting.value, Scalar::Word(Word::No));
    engine.write_subtitle_id(setting.value);
    let tracks = subtitle_tracks(&engine.rows);
    assert_eq!(tracks.len(), 2);
    assert!(tracks.iter().all(|t| !t.selected));
    engine.write_subtitle_id(select_track_setting(2).value);
    let selected: Vec<i64> = subtitle_tracks(&engine.rows).iter().filter(|t| t.selected).map(|t| t.id).collect();
    assert_eq!(selected, vec![2]);
}

#[test]
fn an_added_subtitle_is_listed_as_external() {
    let mut engine = TableEngine { rows: vec![other("video"), row("sub", 1, "en", "", true, false)] };
    let command = add_subtitle_command("http://host/extra.srt", Some("Extra"));
    assert_eq!(command.verb, Verb::SubAdd);
    assert_eq!(command.args[0], "http://host/extra.srt");
    engine.sub_add(&command.args);
    let tracks = subtitle_tracks(&engine.rows);
    let added: Vec<&SubtitleTrack> = tracks.iter().filter(|t| t.external).collect();
    assert_eq!(added.len(), 1);
    assert_eq!(added[0].title, "Extra");
    assert_eq!(added[0].index, 2);
    assert!(!added[0].selected);
}
