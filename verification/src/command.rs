//! The playback controller: what each transport control asks of the engine.
//!
//! Times and other decimal numbers are whole millionths: 1,500,000 is a
//! second and a half.

use vstd::prelude::*;
use crate::error::{BridgeError, BridgeErrorModel};
use crate::port::{Command, CommandModel, EngineOp, EngineOpModel, Key, Scalar, Setting, Verb, Word};
use crate::text::{
    contains, lowercase, millionths_text, occurs_in, render_millionths, render_thousandths, round_to_thousandths, rounded_thousandths,
    thousandths_text, to_lowercase,
};

verus! {

/// A start position counts only above this many millionths of a second, so
/// that a position of practically zero does not cause a precise seek.
pub const START_THRESHOLD: i64 = 200_000;

/// By how many millionths the zoom is moved, and moved back, to make the
/// engine look at its output size again.
pub const ZOOM_NUDGE: i64 = 100;

/// The argument that carries a start position, if the position counts.
pub open spec fn spec_start_args(start: Option<i64>) -> Seq<Seq<char>> {
    match start {
        Some(position) if position > START_THRESHOLD => seq![
            "start="@ + thousandths_text(rounded_thousandths(position as nat)),
        ],
        _ => seq![],
    }
}

/// The argument that asks the engine to load paused, if that was asked for.
pub open spec fn spec_pause_args(start_paused: Option<bool>) -> Seq<Seq<char>> {
    if start_paused == Some(true) {
        seq!["pause=yes"@]
    } else {
        seq![]
    }
}

/// The command that loads a medium in place of the current one.
pub open spec fn spec_load(url: Seq<char>, start: Option<i64>, start_paused: Option<bool>) -> CommandModel {
    CommandModel {
        verb: Verb::LoadFile,
        args: seq![url, "replace"@] + spec_start_args(start) + spec_pause_args(start_paused),
    }
}

/// The command that adds a subtitle file and selects it.
pub open spec fn spec_select_subtitle(url: Seq<char>) -> CommandModel {
    CommandModel { verb: Verb::SubAdd, args: seq![url, "select"@] }
}

/// What a launch asks of the engine once it runs: the load, and after it the
/// subtitle, if one was given and its address is not empty. The subtitle
/// comes second because loading resets the engine's tracks.
pub open spec fn spec_launch_ops(
    url: Seq<char>,
    subtitle: Option<Seq<char>>,
    start: Option<i64>,
    start_paused: Option<bool>,
) -> Seq<EngineOpModel> {
    let load = seq![EngineOpModel::Run(spec_load(url, start, start_paused))];
    match subtitle {
        Some(address) if address.len() > 0 => load.push(EngineOpModel::Run(spec_select_subtitle(address))),
        _ => load,
    }
}

/// The command that adds a subtitle file without selecting it, under a title
/// if one is given.
pub open spec fn spec_add_subtitle(url: Seq<char>, title: Option<Seq<char>>) -> CommandModel {
    CommandModel {
        verb: Verb::SubAdd,
        args: match title {
            Some(title) => seq![url, "auto"@, title],
            None => seq![url, "auto"@],
        },
    }
}

/// The command that seeks to an absolute position.
pub open spec fn spec_seek(position: i64) -> CommandModel {
    CommandModel { verb: Verb::Seek, args: seq![millionths_text(position as int), "absolute"@] }
}

/// The command that seeks by nothing, which makes the engine draw again.
pub open spec fn spec_seek_nowhere() -> CommandModel {
    CommandModel { verb: Verb::Seek, args: seq!["+0"@, "relative"@] }
}

/// The command that shuts the engine down.
pub open spec fn spec_quit() -> CommandModel {
    CommandModel { verb: Verb::Quit, args: seq!["0"@] }
}

/// The setting that selects a subtitle track: a negative id switches
/// subtitles off.
pub open spec fn spec_select_track(id: i64) -> Setting {
    if id < 0 {
        Setting { key: Key::SubtitleId, value: Scalar::Word(Word::No) }
    } else {
        Setting { key: Key::SubtitleId, value: Scalar::Integer(id) }
    }
}

/// The writes of a subtitle style: the scale and the vertical position,
/// each only if given.
pub open spec fn spec_subtitle_style(scale: Option<i64>, position: Option<i64>) -> Seq<EngineOpModel> {
    (match scale {
        Some(scale) => seq![
            EngineOpModel::Write(Setting { key: Key::SubtitleScale, value: Scalar::Millionths(scale) }),
        ],
        None => seq![],
    }) + (match position {
        Some(position) => seq![
            EngineOpModel::Write(Setting { key: Key::SubtitlePosition, value: Scalar::Integer(position) }),
        ],
        None => seq![],
    })
}

/// The zoom that the nudge moves to before it moves back: a little above
/// the current one, or a little below where there is no room above.
pub open spec fn spec_nudged_zoom(zoom: i64) -> i64 {
    if zoom <= i64::MAX - ZOOM_NUDGE {
        (zoom + ZOOM_NUDGE) as i64
    } else {
        (zoom - ZOOM_NUDGE) as i64
    }
}

/// What makes the engine work out its output size again after a resize: the
/// zoom is moved and put back, then the engine seeks by nothing.
pub open spec fn spec_redraw_nudge(zoom: i64) -> Seq<EngineOpModel> {
    seq![
        EngineOpModel::Write(Setting { key: Key::VideoZoom, value: Scalar::Millionths(spec_nudged_zoom(zoom)) }),
        EngineOpModel::Write(Setting { key: Key::VideoZoom, value: Scalar::Millionths(zoom) }),
        EngineOpModel::Run(spec_seek_nowhere()),
    ]
}

/// The command that loads a medium in place of the current one.
///
/// A start position above [`START_THRESHOLD`] is passed on, rounded to
/// thousandths of a second; a smaller one is dropped. The engine is asked to
/// load paused only if `start_paused` is `Some(true)`.
pub fn load_command(url: &str, start: Option<i64>, start_paused: Option<bool>) -> (command: Command)
    ensures
        command.deep_view() == spec_load(url@, start, start_paused),
{
    let mut args: Vec<String> = Vec::new();
    args.push(url.to_owned());
    args.push("replace".to_owned());
    if let Some(position) = start {
        if position > START_THRESHOLD {
            let digits = render_thousandths(round_to_thousandths(position as u64));
            args.push("start=".to_owned().concat(digits.as_str()));
        }
    }
    if let Some(true) = start_paused {
        args.push("pause=yes".to_owned());
    }
    assert(args.deep_view() =~= spec_load(url@, start, start_paused).args);
    Command { verb: Verb::LoadFile, args }
}

/// What a launch asks of the engine once it runs: the load first, then the
/// subtitle, if one was given and its address is not empty.
pub fn launch_ops(url: &str, subtitle: Option<&str>, start: Option<i64>, start_paused: Option<bool>) -> (ops:
    Vec<EngineOp>)
    ensures
        ops.deep_view() == spec_launch_ops(
            url@,
            match subtitle {
                Some(address) => Some(address@),
                None => None,
            },
            start,
            start_paused,
        ),
{
    let mut ops: Vec<EngineOp> = Vec::new();
    ops.push(EngineOp::Run(load_command(url, start, start_paused)));
    if let Some(address) = subtitle {
        if address.unicode_len() > 0 {
            let mut args: Vec<String> = Vec::new();
            args.push(address.to_owned());
            args.push("select".to_owned());
            assert(args.deep_view() =~= spec_select_subtitle(address@).args);
            ops.push(EngineOp::Run(Command { verb: Verb::SubAdd, args }));
        }
    }
    assert(ops.deep_view() =~= spec_launch_ops(
        url@,
        match subtitle {
            Some(address) => Some(address@),
            None => None,
        },
        start,
        start_paused,
    ));
    ops
}

/// The command that adds a subtitle file without selecting it.
pub fn add_subtitle_command(url: &str, title: Option<&str>) -> (command: Command)
    ensures
        command.deep_view() == spec_add_subtitle(
            url@,
            match title {
                Some(title) => Some(title@),
                None => None,
            },
        ),
{
    let mut args: Vec<String> = Vec::new();
    args.push(url.to_owned());
    args.push("auto".to_owned());
    if let Some(title) = title {
        args.push(title.to_owned());
    }
    assert(args.deep_view() =~= spec_add_subtitle(
        url@,
        match title {
            Some(title) => Some(title@),
            None => None,
        },
    ).args);
    Command { verb: Verb::SubAdd, args }
}

/// The command that makes the engine look for subtitle tracks again.
pub fn reload_subtitles_command() -> (command: Command)
    ensures
        command.deep_view() == (CommandModel { verb: Verb::SubReload, args: seq![] }),
{
    let args: Vec<String> = Vec::new();
    assert(args.deep_view() =~= Seq::<Seq<char>>::empty());
    Command { verb: Verb::SubReload, args }
}

/// The command that seeks to an absolute position, given in millionths of a
/// second.
pub fn seek_command(position: i64) -> (command: Command)
    ensures
        command.deep_view() == spec_seek(position),
{
    let mut args: Vec<String> = Vec::new();
    args.push(render_millionths(position));
    args.push("absolute".to_owned());
    assert(args.deep_view() =~= spec_seek(position).args);
    Command { verb: Verb::Seek, args }
}

/// The command that shuts the engine down.
pub fn quit_command() -> (command: Command)
    ensures
        command.deep_view() == spec_quit(),
{
    let mut args: Vec<String> = Vec::new();
    args.push("0".to_owned());
    assert(args.deep_view() =~= spec_quit().args);
    Command { verb: Verb::Quit, args }
}

/// The setting that pauses or resumes playback.
pub fn pause_setting(paused: bool) -> (setting: Setting)
    ensures
        setting == (Setting { key: Key::Pause, value: Scalar::Flag(paused) }),
{
    Setting { key: Key::Pause, value: Scalar::Flag(paused) }
}

/// The setting that sets the volume.
pub fn volume_setting(level: i64) -> (setting: Setting)
    ensures
        setting == (Setting { key: Key::Volume, value: Scalar::Integer(level) }),
{
    Setting { key: Key::Volume, value: Scalar::Integer(level) }
}

/// The setting that tells the engine whether it is shown fullscreen.
pub fn fullscreen_setting(enabled: bool) -> (setting: Setting)
    ensures
        setting == (Setting { key: Key::Fullscreen, value: Scalar::Flag(enabled) }),
{
    Setting { key: Key::Fullscreen, value: Scalar::Flag(enabled) }
}

/// The setting that selects a subtitle track, or switches subtitles off for
/// a negative id.
pub fn select_track_setting(id: i64) -> (setting: Setting)
    ensures
        setting == spec_select_track(id),
{
    if id < 0 {
        Setting { key: Key::SubtitleId, value: Scalar::Word(Word::No) }
    } else {
        Setting { key: Key::SubtitleId, value: Scalar::Integer(id) }
    }
}

/// What makes the engine work out its output size again after a resize,
/// given its current zoom in millionths.
pub fn redraw_nudge(zoom: i64) -> (ops: Vec<EngineOp>)
    ensures
        ops.deep_view() == spec_redraw_nudge(zoom),
{
    let nudged: i64 = if zoom <= i64::MAX - ZOOM_NUDGE {
        zoom + ZOOM_NUDGE
    } else {
        zoom - ZOOM_NUDGE
    };
    let mut args: Vec<String> = Vec::new();
    args.push("+0".to_owned());
    args.push("relative".to_owned());
    assert(args.deep_view() =~= spec_seek_nowhere().args);
    let mut ops: Vec<EngineOp> = Vec::new();
    ops.push(EngineOp::Write(Setting { key: Key::VideoZoom, value: Scalar::Millionths(nudged) }));
    ops.push(EngineOp::Write(Setting { key: Key::VideoZoom, value: Scalar::Millionths(zoom) }));
    ops.push(EngineOp::Run(Command { verb: Verb::Seek, args }));
    assert(ops.deep_view() =~= spec_redraw_nudge(zoom));
    ops
}

/// Whether an address in lower case names a subtitle file: it holds `.srt`
/// or `.vtt`.
pub open spec fn spec_names_subtitle(lowered: Seq<char>) -> bool {
    occurs_in(lowered, ".srt"@) || occurs_in(lowered, ".vtt"@)
}

/// Whether an address already in lower case names a subtitle file.
pub fn lowered_names_subtitle(lowered: &str) -> (subtitle: bool)
    ensures
        subtitle == spec_names_subtitle(lowered@),
{
    contains(lowered, ".srt") || contains(lowered, ".vtt")
}

/// Whether an address names a subtitle file, whatever its case. Such an
/// address is no medium, and loading it would replace what plays.
pub fn names_subtitle(url: &str) -> (subtitle: bool)
    ensures
        subtitle == spec_names_subtitle(lowercase(url@)),
{
    let lowered = to_lowercase(url);
    lowered_names_subtitle(lowered.as_str())
}

/// A transport control, as the host asks for it.
#[derive(Clone, Debug, PartialEq, Eq)]
pub enum Control {
    /// Pause (`true`) or resume (`false`).
    PlayPause(bool),
    /// Seek to an absolute position, in millionths of a second.
    Seek(i64),
    /// Set the volume.
    SetVolume(i64),
    /// Tell the engine whether it is shown fullscreen.
    SetFullscreen(bool),
    /// Select the subtitle track with this id; a negative id switches
    /// subtitles off.
    SelectTrack(i64),
    /// Add a subtitle file, under a title if one is given.
    AddTrack { url: String, title: Option<String> },
    /// Make the engine look for subtitle tracks again.
    ReloadTracks,
    /// Set the subtitle scale, in millionths, and vertical position, each
    /// only if given.
    SetSubtitleStyle { scale: Option<i64>, position: Option<i64> },
}

/// What a [`Control`] is, mathematically.
pub enum ControlModel {
    PlayPause(bool),
    Seek(i64),
    SetVolume(i64),
    SetFullscreen(bool),
    SelectTrack(i64),
    AddTrack { url: Seq<char>, title: Option<Seq<char>> },
    ReloadTracks,
    SetSubtitleStyle { scale: Option<i64>, position: Option<i64> },
}

impl DeepView for Control {
    type V = ControlModel;

    open spec fn deep_view(&self) -> ControlModel {
        match self {
            Control::PlayPause(paused) => ControlModel::PlayPause(*paused),
            Control::Seek(position) => ControlModel::Seek(*position),
            Control::SetVolume(level) => ControlModel::SetVolume(*level),
            Control::SetFullscreen(enabled) => ControlModel::SetFullscreen(*enabled),
            Control::SelectTrack(id) => ControlModel::SelectTrack(*id),
            Control::AddTrack { url, title } => ControlModel::AddTrack {
                url: url@,
                title: match title {
                    Some(title) => Some(title@),
                    None => None,
                },
            },
            Control::ReloadTracks => ControlModel::ReloadTracks,
            Control::SetSubtitleStyle { scale, position } => ControlModel::SetSubtitleStyle {
                scale: *scale,
                position: *position,
            },
        }
    }
}

impl ControlModel {
    /// What the control asks of a running engine.
    pub open spec fn ops(self) -> Seq<EngineOpModel> {
        match self {
            ControlModel::PlayPause(paused) => seq![
                EngineOpModel::Write(Setting { key: Key::Pause, value: Scalar::Flag(paused) }),
            ],
            ControlModel::Seek(position) => seq![EngineOpModel::Run(spec_seek(position))],
            ControlModel::SetVolume(level) => seq![
                EngineOpModel::Write(Setting { key: Key::Volume, value: Scalar::Integer(level) }),
            ],
            ControlModel::SetFullscreen(enabled) => seq![
                EngineOpModel::Write(Setting { key: Key::Fullscreen, value: Scalar::Flag(enabled) }),
            ],
            ControlModel::SelectTrack(id) => seq![EngineOpModel::Write(spec_select_track(id))],
            ControlModel::AddTrack { url, title } => seq![EngineOpModel::Run(spec_add_subtitle(url, title))],
            ControlModel::ReloadTracks => seq![
                EngineOpModel::Run(CommandModel { verb: Verb::SubReload, args: seq![] }),
            ],
            ControlModel::SetSubtitleStyle { scale, position } => spec_subtitle_style(scale, position),
        }
    }

    /// Whether the control is refused without a session. The others are
    /// silently skipped.
    pub open spec fn needs_session(self) -> bool {
        self is AddTrack || self is ReloadTracks
    }

    /// Whether the host is told when the engine fails the control. The
    /// others are best effort: a failure leaves the session as it is and the
    /// host is told nothing.
    pub open spec fn reports_failure(self) -> bool {
        self is PlayPause || self is SetVolume
    }
}

/// What a control does: with an active session, its operations; without
/// one, nothing, or a refusal where the control needs a session.
pub open spec fn spec_dispatch(active: bool, control: ControlModel) -> Result<
    Seq<EngineOpModel>,
    BridgeErrorModel,
> {
    if active {
        Ok(control.ops())
    } else if control.needs_session() {
        Err(BridgeErrorModel::NotActive)
    } else {
        Ok(Seq::empty())
    }
}

/// What the host is told after a control ran: `failure` is what the engine
/// said of the first operation that it failed, if it failed one. Only the
/// controls that report failure pass it on; playback goes on either way.
pub open spec fn spec_settle(control: ControlModel, failure: Option<Seq<char>>) -> Result<(), BridgeErrorModel> {
    match failure {
        Some(text) if control.reports_failure() => Err(BridgeErrorModel::Property(text)),
        _ => Ok(()),
    }
}

/// The operations of a control on a running engine.
pub fn control_ops(control: &Control) -> (ops: Vec<EngineOp>)
    ensures
        ops.deep_view() == control.deep_view().ops(),
{
    let mut ops: Vec<EngineOp> = Vec::new();
    match control {
        Control::PlayPause(paused) => {
            ops.push(EngineOp::Write(pause_setting(*paused)));
        },
        Control::Seek(position) => {
            ops.push(EngineOp::Run(seek_command(*position)));
        },
        Control::SetVolume(level) => {
            ops.push(EngineOp::Write(volume_setting(*level)));
        },
        Control::SetFullscreen(enabled) => {
            ops.push(EngineOp::Write(fullscreen_setting(*enabled)));
        },
        Control::SelectTrack(id) => {
            ops.push(EngineOp::Write(select_track_setting(*id)));
        },
        Control::AddTrack { url, title } => {
            let command = match title {
                Some(title) => add_subtitle_command(url.as_str(), Some(title.as_str())),
                None => add_subtitle_command(url.as_str(), None),
            };
            ops.push(EngineOp::Run(command));
        },
        Control::ReloadTracks => {
            ops.push(EngineOp::Run(reload_subtitles_command()));
        },
        Control::SetSubtitleStyle { scale, position } => {
            if let Some(scale) = scale {
                ops.push(EngineOp::Write(Setting { key: Key::SubtitleScale, value: Scalar::Millionths(*scale) }));
            }
            if let Some(position) = position {
                ops.push(
                    EngineOp::Write(Setting { key: Key::SubtitlePosition, value: Scalar::Integer(*position) }),
                );
            }
        },
    }
    assert(ops.deep_view() =~= control.deep_view().ops());
    ops
}

/// Plans a control: `active` says whether a session is active.
///
/// With a session the control's operations are handed out. Without one a
/// control that needs a session is refused with [`BridgeError::NotActive`],
/// and any other control is planned as nothing at all.
pub fn dispatch(active: bool, control: &Control) -> (plan: Result<Vec<EngineOp>, BridgeError>)
    ensures
        match plan {
            Ok(ops) => spec_dispatch(active, control.deep_view()) == Ok::<Seq<EngineOpModel>, BridgeErrorModel>(
                ops.deep_view(),
            ),
            Err(error) => spec_dispatch(active, control.deep_view()) == Err::<
                Seq<EngineOpModel>,
                BridgeErrorModel,
            >(error.deep_view()),
        },
{
    if active {
        Ok(control_ops(control))
    } else {
        match control {
            Control::AddTrack { .. } => Err(BridgeError::NotActive),
            Control::ReloadTracks => Err(BridgeError::NotActive),
            _ => {
                let ops: Vec<EngineOp> = Vec::new();
                assert(ops.deep_view() =~= Seq::empty());
                Ok(ops)
            },
        }
    }
}

/// Says what the host is told after a control ran: `failure` is what the
/// engine said of the first operation that it failed, `None` if it failed
/// none.
pub fn settle(control: &Control, failure: Option<String>) -> (outcome: Result<(), BridgeError>)
    ensures
        match outcome {
            Ok(_) => spec_settle(
                control.deep_view(),
                match failure {
                    Some(text) => Some(text@),
                    None => None,
                },
            ) is Ok,
            Err(error) => spec_settle(
                control.deep_view(),
                match failure {
                    Some(text) => Some(text@),
                    None => None,
                },
            ) == Err::<(), BridgeErrorModel>(error.deep_view()),
        },
{
    match failure {
        Some(text) => match control {
            Control::PlayPause(_) => Err(BridgeError::Property(text)),
            Control::SetVolume(_) => Err(BridgeError::Property(text)),
            _ => Ok(()),
        },
        None => Ok(()),
    }
}

/// Without a session no control reaches an engine: whatever is planned is
/// empty.
pub proof fn lemma_idle_controls_do_nothing(control: ControlModel)
    ensures
        spec_dispatch(false, control) matches Ok(ops) ==> ops.len() == 0,
        spec_dispatch(false, control) is Err <==> control.needs_session(),
{
}

} // verus!
