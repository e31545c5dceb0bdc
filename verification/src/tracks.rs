//! Subtitle tracks: how the engine's track table is asked for, and which of
//! its rows become the tracks that the host is shown.

use vstd::prelude::*;
use crate::port::{Format, Reply, ReplyModel};
use crate::text::{decimal, render_unsigned, text_eq};

verus! {

/// A subtitle track as the host is shown it.
#[derive(Clone, Debug, PartialEq, Eq)]
pub struct SubtitleTrack {
    /// The id by which the engine selects the track.
    pub id: i64,
    /// The language code, empty if unknown.
    pub lang: String,
    /// The title, empty if the track has none.
    pub title: String,
    /// Whether the track is the one shown.
    pub selected: bool,
    /// Whether the track was loaded from a file of its own.
    pub external: bool,
    /// The row of the engine's track table that the track stands in.
    pub index: usize,
}

/// What a [`SubtitleTrack`] is, mathematically.
pub struct SubtitleTrackModel {
    pub id: i64,
    pub lang: Seq<char>,
    pub title: Seq<char>,
    pub selected: bool,
    pub external: bool,
    pub index: int,
}

impl DeepView for SubtitleTrack {
    type V = SubtitleTrackModel;

    open spec fn deep_view(&self) -> SubtitleTrackModel {
        SubtitleTrackModel {
            id: self.id,
            lang: self.lang@,
            title: self.title@,
            selected: self.selected,
            external: self.external,
            index: self.index as int,
        }
    }
}

/// A field of a row of the engine's track table.
#[derive(Clone, Copy, Debug, PartialEq, Eq, Structural)]
pub enum TrackField {
    Kind,
    Id,
    Language,
    Title,
    Selected,
    External,
}

impl TrackField {
    /// The engine's name for the field.
    pub open spec fn spec_name(self) -> Seq<char> {
        match self {
            TrackField::Kind => "type"@,
            TrackField::Id => "id"@,
            TrackField::Language => "lang"@,
            TrackField::Title => "title"@,
            TrackField::Selected => "selected"@,
            TrackField::External => "external"@,
        }
    }

    /// The type in which the field is read.
    pub open spec fn spec_format(self) -> Format {
        match self {
            TrackField::Kind => Format::Text,
            TrackField::Id => Format::Integer,
            TrackField::Language => Format::Text,
            TrackField::Title => Format::Text,
            TrackField::Selected => Format::Flag,
            TrackField::External => Format::Flag,
        }
    }

    /// The engine's name for the field.
    pub fn name(self) -> (text: &'static str)
        ensures
            text@ == self.spec_name(),
    {
        match self {
            TrackField::Kind => "type",
            TrackField::Id => "id",
            TrackField::Language => "lang",
            TrackField::Title => "title",
            TrackField::Selected => "selected",
            TrackField::External => "external",
        }
    }

    /// The type in which the field is read.
    pub fn format(self) -> (format: Format)
        ensures
            format == self.spec_format(),
    {
        match self {
            TrackField::Kind => Format::Text,
            TrackField::Id => Format::Integer,
            TrackField::Language => Format::Text,
            TrackField::Title => Format::Text,
            TrackField::Selected => Format::Flag,
            TrackField::External => Format::Flag,
        }
    }
}

/// The name of the property that holds a field of a row: `track-list/`, the
/// row's number, a slash and the field's name.
pub open spec fn spec_track_property(row: nat, field: TrackField) -> Seq<char> {
    "track-list/"@ + decimal(row) + "/"@ + field.spec_name()
}

/// The name of the property that holds a field of a row.
pub fn track_property(row: usize, field: TrackField) -> (name: String)
    ensures
        name@ == spec_track_property(row as nat, field),
{
    let number = render_unsigned(row as u64);
    let mut name = "track-list/".to_owned();
    name.append(number.as_str());
    name.append("/");
    name.append(field.name());
    name
}

/// How many rows the track table has, from the reply to the read of its
/// count: none where the read failed or gave a negative number.
pub open spec fn spec_row_count(reply: ReplyModel) -> nat {
    match reply {
        ReplyModel::Integer(n) if n > 0 => n as nat,
        _ => 0,
    }
}

/// How many rows the track table has, from the reply to the read of its
/// count.
pub fn row_count(reply: &Reply) -> (count: u64)
    ensures
        count == spec_row_count(reply.deep_view()),
{
    match reply {
        Reply::Integer(n) => if *n > 0 {
            *n as u64
        } else {
            0
        },
        _ => 0,
    }
}

/// What was read of one row of the track table. The fields after the kind
/// matter only for a subtitle row, and need not be read for another.
#[derive(Clone, Debug, PartialEq, Eq)]
pub struct TrackRow {
    pub kind: Reply,
    pub id: Reply,
    pub lang: Reply,
    pub title: Reply,
    pub selected: Reply,
    pub external: Reply,
}

/// What a [`TrackRow`] is, mathematically.
pub struct TrackRowModel {
    pub kind: ReplyModel,
    pub id: ReplyModel,
    pub lang: ReplyModel,
    pub title: ReplyModel,
    pub selected: ReplyModel,
    pub external: ReplyModel,
}

impl DeepView for TrackRow {
    type V = TrackRowModel;

    open spec fn deep_view(&self) -> TrackRowModel {
        TrackRowModel {
            kind: self.kind.deep_view(),
            id: self.id.deep_view(),
            lang: self.lang.deep_view(),
            title: self.title.deep_view(),
            selected: self.selected.deep_view(),
            external: self.external.deep_view(),
        }
    }
}

impl TrackRowModel {
    /// Whether the row is a subtitle track: its kind was read as `sub`.
    pub open spec fn is_subtitle(self) -> bool {
        self.kind == ReplyModel::Text("sub"@)
    }

    /// The track that a subtitle row in place `index` becomes. A field that
    /// could not be read counts as id 0, no language, no title, not
    /// selected, not external.
    pub open spec fn track(self, index: int) -> SubtitleTrackModel {
        SubtitleTrackModel {
            id: self.id.integer_or(0),
            lang: self.lang.text_or(Seq::empty()),
            title: self.title.text_or(Seq::empty()),
            selected: self.selected.flag_or(false),
            external: self.external.flag_or(false),
            index,
        }
    }
}

/// The subtitle tracks of a track table: its subtitle rows, in the table's
/// order, each as the track it becomes.
pub open spec fn spec_subtitle_tracks(rows: Seq<TrackRowModel>) -> Seq<SubtitleTrackModel>
    decreases rows.len(),
{
    if rows.len() == 0 {
        Seq::empty()
    } else {
        let before = spec_subtitle_tracks(rows.drop_last());
        if rows.last().is_subtitle() {
            before.push(rows.last().track(rows.len() - 1))
        } else {
            before
        }
    }
}

/// The tracks that a listing shows: those of the table while a session is
/// active, none otherwise.
pub open spec fn spec_listing(rows: Option<Seq<TrackRowModel>>) -> Seq<SubtitleTrackModel> {
    match rows {
        Some(rows) => spec_subtitle_tracks(rows),
        None => Seq::empty(),
    }
}

impl TrackRow {
    /// Whether the row is a subtitle track.
    pub fn is_subtitle(&self) -> (sub: bool)
        ensures
            sub == self.deep_view().is_subtitle(),
    {
        match &self.kind {
            Reply::Text(kind) => text_eq(kind.as_str(), "sub"),
            _ => false,
        }
    }

    /// The track that a subtitle row in place `index` becomes.
    pub fn track(&self, index: usize) -> (track: SubtitleTrack)
        ensures
            track.deep_view() == self.deep_view().track(index as int),
    {
        proof {
            reveal_strlit("");
            assert(""@ =~= Seq::<char>::empty());
        }
        SubtitleTrack {
            id: self.id.integer_or(0),
            lang: self.lang.text_or(""),
            title: self.title.text_or(""),
            selected: self.selected.flag_or(false),
            external: self.external.flag_or(false),
            index,
        }
    }
}

/// Whether a reply to the read of a row's kind says that the row is a
/// subtitle track, so that its other fields are worth reading.
pub fn is_subtitle_kind(kind: &Reply) -> (sub: bool)
    ensures
        sub == (kind.deep_view() == ReplyModel::Text("sub"@)),
{
    match kind {
        Reply::Text(kind) => text_eq(kind.as_str(), "sub"),
        _ => false,
    }
}

/// The subtitle tracks of a track table, in the table's order.
pub fn subtitle_tracks(rows: &Vec<TrackRow>) -> (tracks: Vec<SubtitleTrack>)
    ensures
        tracks.deep_view() == spec_subtitle_tracks(rows.deep_view()),
{
    let mut tracks: Vec<SubtitleTrack> = Vec::new();
    let mut i: usize = 0;
    assert(rows.deep_view().take(0) =~= Seq::empty());
    assert(tracks.deep_view() =~= Seq::empty());
    while i < rows.len()
        invariant
            i <= rows.len(),
            tracks.deep_view() == spec_subtitle_tracks(rows.deep_view().take(i as int)),
        decreases rows.len() - i,
    {
        let ghost before = tracks.deep_view();
        let ghost seen = rows.deep_view().take(i as int + 1);
        assert(seen.drop_last() =~= rows.deep_view().take(i as int));
        assert(seen.last() == rows[i as int].deep_view());
        if rows[i].is_subtitle() {
            tracks.push(rows[i].track(i));
            assert(tracks.deep_view() =~= before.push(rows[i as int].deep_view().track(i as int)));
        }
        i = i + 1;
    }
    assert(rows.deep_view().take(rows.len() as int) =~= rows.deep_view());
    tracks
}

/// The tracks that a listing shows: those of the table that was read from
/// the active session, none when there is no session.
pub fn listing(rows: Option<&Vec<TrackRow>>) -> (tracks: Vec<SubtitleTrack>)
    ensures
        tracks.deep_view() == spec_listing(
            match rows {
                Some(rows) => Some(rows.deep_view()),
                None => None,
            },
        ),
{
    match rows {
        Some(rows) => subtitle_tracks(rows),
        None => {
            let tracks: Vec<SubtitleTrack> = Vec::new();
            assert(tracks.deep_view() =~= Seq::empty());
            tracks
        },
    }
}

/// The listing is the table's subtitle rows and nothing else: every track
/// stands for a subtitle row and is what that row becomes, the tracks keep
/// the rows' order, and every subtitle row has its track.
pub proof fn lemma_tracks_are_the_subtitle_rows(rows: Seq<TrackRowModel>)
    ensures
        forall|k: int|
            #![trigger spec_subtitle_tracks(rows)[k]]
            0 <= k < spec_subtitle_tracks(rows).len() ==> {
                let track = spec_subtitle_tracks(rows)[k];
                &&& 0 <= track.index < rows.len()
                &&& rows[track.index].is_subtitle()
                &&& track == rows[track.index].track(track.index)
            },
        forall|j: int, k: int|
            #![trigger spec_subtitle_tracks(rows)[j], spec_subtitle_tracks(rows)[k]]
            0 <= j < k < spec_subtitle_tracks(rows).len() ==> spec_subtitle_tracks(rows)[j].index
                < spec_subtitle_tracks(rows)[k].index,
        forall|i: int|
            #![trigger rows[i]]
            0 <= i < rows.len() && rows[i].is_subtitle() ==> exists|k: int|
                0 <= k < spec_subtitle_tracks(rows).len() && #[trigger] spec_subtitle_tracks(rows)[k]
                    == rows[i].track(i),
        spec_subtitle_tracks(rows).len() <= rows.len(),
    decreases rows.len(),
{
    if rows.len() > 0 {
        let init = rows.drop_last();
        lemma_tracks_are_the_subtitle_rows(init);
        let before = spec_subtitle_tracks(init);
        let all = spec_subtitle_tracks(rows);
        assert forall|k: int| 0 <= k < before.len() implies #[trigger] all[k] == before[k] by {}
        assert forall|k: int| #![trigger all[k]] 0 <= k < all.len() implies {
            let track = all[k];
            &&& 0 <= track.index < rows.len()
            &&& rows[track.index].is_subtitle()
            &&& track == rows[track.index].track(track.index)
        } by {
            if k < before.len() {
                assert(all[k] == before[k]);
                assert(init[before[k].index] == rows[before[k].index]);
            }
        }
        assert forall|j: int, k: int| #![trigger all[j], all[k]] 0 <= j < k < all.len() implies all[j].index
            < all[k].index by {
            assert(all[j] == before[j]);
            if k < before.len() {
                assert(all[k] == before[k]);
            }
        }
        assert forall|i: int| #![trigger rows[i]] 0 <= i < rows.len() && rows[i].is_subtitle() implies exists|
            k: int,
        | 0 <= k < all.len() && #[trigger] all[k] == rows[i].track(i) by {
            if i < init.len() {
                assert(init[i] == rows[i]);
                let k = choose|k: int| 0 <= k < before.len() && #[trigger] before[k] == init[i].track(i);
                assert(all[k] == before[k]);
            } else {
                assert(all[all.len() - 1] == rows[i].track(i));
            }
        }
    }
}

/// Once subtitles are switched off, and the engine has taken no track for
/// selected, no track of the listing is shown as selected.
pub proof fn lemma_nothing_selected_when_disabled(rows: Seq<TrackRowModel>)
    requires
        forall|i: int|
            #![trigger rows[i]]
            0 <= i < rows.len() && rows[i].is_subtitle() ==> !rows[i].selected.flag_or(false),
    ensures
        forall|k: int|
            0 <= k < spec_subtitle_tracks(rows).len() ==> !(#[trigger] spec_subtitle_tracks(rows)[k]).selected,
{
    lemma_tracks_are_the_subtitle_rows(rows);
    assert forall|k: int| 0 <= k < spec_subtitle_tracks(rows).len() implies !(#[trigger] spec_subtitle_tracks(
        rows,
    )[k]).selected by {
        let track = spec_subtitle_tracks(rows)[k];
        assert(rows[track.index].is_subtitle());
    }
}

/// A subtitle row that the engine marks as loaded from a file is listed as
/// an external track, in that row's place.
pub proof fn lemma_external_track_is_listed(rows: Seq<TrackRowModel>, row: int)
    requires
        0 <= row < rows.len(),
        rows[row].is_subtitle(),
        rows[row].external == ReplyModel::Flag(true),
    ensures
        exists|k: int|
            0 <= k < spec_subtitle_tracks(rows).len() && (#[trigger] spec_subtitle_tracks(rows)[k]).external
                && spec_subtitle_tracks(rows)[k].index == row && spec_subtitle_tracks(rows)[k].id
                == rows[row].id.integer_or(0),
{
    lemma_tracks_are_the_subtitle_rows(rows);
    let k = choose|k: int|
        0 <= k < spec_subtitle_tracks(rows).len() && #[trigger] spec_subtitle_tracks(rows)[k] == rows[row].track(
            row,
        );
    assert(spec_subtitle_tracks(rows)[k].external);
}

} // verus!
