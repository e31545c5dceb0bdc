//! The playback state snapshot: what is read from the engine, and what the
//! host is told when a read fails or no session is active.

use vstd::prelude::*;
use crate::port::{Format, Key, Reply, ReplyModel};

verus! {

/// A snapshot of the playback state. Position and duration are in
/// millionths of a second; a width or height of -1 is unknown.
#[derive(Clone, Debug, PartialEq, Eq)]
pub struct PlaybackState {
    pub position: i64,
    pub duration: i64,
    pub paused: bool,
    /// The hardware decoder in use, `no` for none.
    pub hwdec: String,
    /// The id of the selected subtitle track, -1 for none.
    pub subtitle_id: i64,
    pub volume: i64,
    pub osd_width: i64,
    pub osd_height: i64,
    pub output_width: i64,
    pub output_height: i64,
}

/// What a [`PlaybackState`] is, mathematically.
pub struct PlaybackStateModel {
    pub position: i64,
    pub duration: i64,
    pub paused: bool,
    pub hwdec: Seq<char>,
    pub subtitle_id: i64,
    pub volume: i64,
    pub osd_width: i64,
    pub osd_height: i64,
    pub output_width: i64,
    pub output_height: i64,
}

impl DeepView for PlaybackState {
    type V = PlaybackStateModel;

    open spec fn deep_view(&self) -> PlaybackStateModel {
        PlaybackStateModel {
            position: self.position,
            duration: self.duration,
            paused: self.paused,
            hwdec: self.hwdec@,
            subtitle_id: self.subtitle_id,
            volume: self.volume,
            osd_width: self.osd_width,
            osd_height: self.osd_height,
            output_width: self.output_width,
            output_height: self.output_height,
        }
    }
}

/// One property to read, and the type to read it in.
#[derive(Clone, Copy, Debug, PartialEq, Eq, Structural)]
pub struct Probe {
    pub key: Key,
    pub format: Format,
}

/// The subtitle id that stands for "no subtitle".
pub const NO_SUBTITLE: i64 = -1;

/// The width or height that stands for "unknown".
pub const UNKNOWN_SIZE: i64 = -1;

/// The volume of an engine that was never told another.
pub const FULL_VOLUME: i64 = 100;

/// The snapshot that stands for "no session": nothing plays, nothing is
/// selected, and the player is paused at full volume.
pub open spec fn spec_idle_state() -> PlaybackStateModel {
    PlaybackStateModel {
        position: 0,
        duration: 0,
        paused: true,
        hwdec: "no"@,
        subtitle_id: NO_SUBTITLE,
        volume: FULL_VOLUME,
        osd_width: UNKNOWN_SIZE,
        osd_height: UNKNOWN_SIZE,
        output_width: UNKNOWN_SIZE,
        output_height: UNKNOWN_SIZE,
    }
}

/// The reads that make up a snapshot, in the order in which their replies
/// are expected.
pub open spec fn spec_state_probes() -> Seq<Probe> {
    seq![
        Probe { key: Key::TimePosition, format: Format::Decimal },
        Probe { key: Key::Duration, format: Format::Decimal },
        Probe { key: Key::Pause, format: Format::Flag },
        Probe { key: Key::HwDecodeCurrent, format: Format::Text },
        Probe { key: Key::SubtitleId, format: Format::Integer },
        Probe { key: Key::Volume, format: Format::Integer },
        Probe { key: Key::OsdWidth, format: Format::Integer },
        Probe { key: Key::OsdHeight, format: Format::Integer },
        Probe { key: Key::OutputWidth, format: Format::Integer },
        Probe { key: Key::OutputHeight, format: Format::Integer },
    ]
}

/// The reply at a place, or a missing one where the replies end before it.
pub open spec fn spec_reply_at(replies: Seq<ReplyModel>, at: int) -> ReplyModel {
    if 0 <= at < replies.len() {
        replies[at]
    } else {
        ReplyModel::Missing
    }
}

/// The snapshot of a running session, from the replies to
/// [`spec_state_probes`]. A read that failed counts as its default: zero for
/// the times, playing, no hardware decoder, no subtitle, full volume and
/// unknown sizes.
pub open spec fn spec_state_from_replies(replies: Seq<ReplyModel>) -> PlaybackStateModel {
    PlaybackStateModel {
        position: spec_reply_at(replies, 0).millionths_or(0),
        duration: spec_reply_at(replies, 1).millionths_or(0),
        paused: spec_reply_at(replies, 2).flag_or(false),
        hwdec: spec_reply_at(replies, 3).text_or("no"@),
        subtitle_id: spec_reply_at(replies, 4).integer_or(NO_SUBTITLE),
        volume: spec_reply_at(replies, 5).integer_or(FULL_VOLUME),
        osd_width: spec_reply_at(replies, 6).integer_or(UNKNOWN_SIZE),
        osd_height: spec_reply_at(replies, 7).integer_or(UNKNOWN_SIZE),
        output_width: spec_reply_at(replies, 8).integer_or(UNKNOWN_SIZE),
        output_height: spec_reply_at(replies, 9).integer_or(UNKNOWN_SIZE),
    }
}

/// The snapshot for a state request: read from the replies while a session
/// is active, the idle snapshot otherwise.
pub open spec fn spec_current_state(replies: Option<Seq<ReplyModel>>) -> PlaybackStateModel {
    match replies {
        Some(replies) => spec_state_from_replies(replies),
        None => spec_idle_state(),
    }
}

/// The snapshot that stands for "no session".
pub fn idle_state() -> (state: PlaybackState)
    ensures
        state.deep_view() == spec_idle_state(),
{
    PlaybackState {
        position: 0,
        duration: 0,
        paused: true,
        hwdec: "no".to_owned(),
        subtitle_id: NO_SUBTITLE,
        volume: FULL_VOLUME,
        osd_width: UNKNOWN_SIZE,
        osd_height: UNKNOWN_SIZE,
        output_width: UNKNOWN_SIZE,
        output_height: UNKNOWN_SIZE,
    }
}

/// The reads that make up a snapshot, in the order in which their replies
/// are expected.
pub fn state_probes() -> (probes: Vec<Probe>)
    ensures
        probes@ == spec_state_probes(),
{
    let mut probes: Vec<Probe> = Vec::new();
    probes.push(Probe { key: Key::TimePosition, format: Format::Decimal });
    probes.push(Probe { key: Key::Duration, format: Format::Decimal });
    probes.push(Probe { key: Key::Pause, format: Format::Flag });
    probes.push(Probe { key: Key::HwDecodeCurrent, format: Format::Text });
    probes.push(Probe { key: Key::SubtitleId, format: Format::Integer });
    probes.push(Probe { key: Key::Volume, format: Format::Integer });
    probes.push(Probe { key: Key::OsdWidth, format: Format::Integer });
    probes.push(Probe { key: Key::OsdHeight, format: Format::Integer });
    probes.push(Probe { key: Key::OutputWidth, format: Format::Integer });
    probes.push(Probe { key: Key::OutputHeight, format: Format::Integer });
    assert(probes@ =~= spec_state_probes());
    probes
}

fn integer_at(replies: &Vec<Reply>, at: usize, default: i64) -> (n: i64)
    ensures
        n == spec_reply_at(replies.deep_view(), at as int).integer_or(default),
{
    if at < replies.len() {
        replies[at].integer_or(default)
    } else {
        default
    }
}

fn millionths_at(replies: &Vec<Reply>, at: usize, default: i64) -> (n: i64)
    ensures
        n == spec_reply_at(replies.deep_view(), at as int).millionths_or(default),
{
    if at < replies.len() {
        replies[at].millionths_or(default)
    } else {
        default
    }
}

fn flag_at(replies: &Vec<Reply>, at: usize, default: bool) -> (b: bool)
    ensures
        b == spec_reply_at(replies.deep_view(), at as int).flag_or(default),
{
    if at < replies.len() {
        replies[at].flag_or(default)
    } else {
        default
    }
}

fn text_at(replies: &Vec<Reply>, at: usize, default: &str) -> (s: String)
    ensures
        s@ == spec_reply_at(replies.deep_view(), at as int).text_or(default@),
{
    if at < replies.len() {
        replies[at].text_or(default)
    } else {
        default.to_owned()
    }
}

/// The snapshot of a running session, from the replies to [`state_probes`],
/// each in the place of its probe.
pub fn state_from_replies(replies: &Vec<Reply>) -> (state: PlaybackState)
    ensures
        state.deep_view() == spec_state_from_replies(replies.deep_view()),
{
    PlaybackState {
        position: millionths_at(replies, 0, 0),
        duration: millionths_at(replies, 1, 0),
        paused: flag_at(replies, 2, false),
        hwdec: text_at(replies, 3, "no"),
        subtitle_id: integer_at(replies, 4, NO_SUBTITLE),
        volume: integer_at(replies, 5, FULL_VOLUME),
        osd_width: integer_at(replies, 6, UNKNOWN_SIZE),
        osd_height: integer_at(replies, 7, UNKNOWN_SIZE),
        output_width: integer_at(replies, 8, UNKNOWN_SIZE),
        output_height: integer_at(replies, 9, UNKNOWN_SIZE),
    }
}

/// The snapshot for a state request: from the replies of the active
/// session, or the idle snapshot when there is none, so that the host can
/// ask at any time.
pub fn current_state(replies: Option<&Vec<Reply>>) -> (state: PlaybackState)
    ensures
        state.deep_view() == spec_current_state(
            match replies {
                Some(replies) => Some(replies.deep_view()),
                None => None,
            },
        ),
{
    match replies {
        Some(replies) => state_from_replies(replies),
        None => idle_state(),
    }
}

} // verus!
