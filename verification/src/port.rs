//! The engine control port: the vocabulary in which the bridge speaks to the
//! media engine. The bridge never calls the engine itself. It hands out
//! settings, commands and queries, and is told what the engine answered.

use vstd::prelude::*;

verus! {

/// An engine option or property that the bridge writes or reads.
#[derive(Clone, Copy, Debug, PartialEq, Eq, Structural)]
pub enum Key {
    Config,
    LoadScripts,
    WindowId,
    VideoOutput,
    GpuApi,
    GpuContext,
    HwDecode,
    KeepAspectWindow,
    InputDefaultBindings,
    InputVoKeyboard,
    OnScreenController,
    Terminal,
    Pause,
    Volume,
    Fullscreen,
    SubtitleId,
    SubtitleScale,
    SubtitlePosition,
    VideoZoom,
    Deband,
    DebandIterations,
    DownScale,
    Scale,
    ChromaScale,
    SigmoidUpscaling,
    Interpolation,
    VideoSync,
    TemporalScale,
    TimePosition,
    Duration,
    HwDecodeCurrent,
    OsdWidth,
    OsdHeight,
    OutputWidth,
    OutputHeight,
    TrackCount,
}

impl Key {
    /// The engine's name for this option or property.
    pub open spec fn spec_name(self) -> Seq<char> {
        match self {
            Key::Config => "config"@,
            Key::LoadScripts => "load-scripts"@,
            Key::WindowId => "wid"@,
            Key::VideoOutput => "vo"@,
            Key::GpuApi => "gpu-api"@,
            Key::GpuContext => "gpu-context"@,
            Key::HwDecode => "hwdec"@,
            Key::KeepAspectWindow => "keepaspect-window"@,
            Key::InputDefaultBindings => "input-default-bindings"@,
            Key::InputVoKeyboard => "input-vo-keyboard"@,
            Key::OnScreenController => "osc"@,
            Key::Terminal => "terminal"@,
            Key::Pause => "pause"@,
            Key::Volume => "volume"@,
            Key::Fullscreen => "fullscreen"@,
            Key::SubtitleId => "sid"@,
            Key::SubtitleScale => "sub-scale"@,
            Key::SubtitlePosition => "sub-pos"@,
            Key::VideoZoom => "video-zoom"@,
            Key::Deband => "deband"@,
            Key::DebandIterations => "deband-iterations"@,
            Key::DownScale => "dscale"@,
            Key::Scale => "scale"@,
            Key::ChromaScale => "cscale"@,
            Key::SigmoidUpscaling => "sigmoid-upscaling"@,
            Key::Interpolation => "interpolation"@,
            Key::VideoSync => "video-sync"@,
            Key::TemporalScale => "tscale"@,
            Key::TimePosition => "time-pos"@,
            Key::Duration => "duration"@,
            Key::HwDecodeCurrent => "hwdec-current"@,
            Key::OsdWidth => "osd-width"@,
            Key::OsdHeight => "osd-height"@,
            Key::OutputWidth => "video-out-params/dw"@,
            Key::OutputHeight => "video-out-params/dh"@,
            Key::TrackCount => "track-list/count"@,
        }
    }

    /// The engine's name for this option or property.
    pub fn name(self) -> (text: &'static str)
        ensures
            text@ == self.spec_name(),
    {
        match self {
            Key::Config => "config",
            Key::LoadScripts => "load-scripts",
            Key::WindowId => "wid",
            Key::VideoOutput => "vo",
            Key::GpuApi => "gpu-api",
            Key::GpuContext => "gpu-context",
            Key::HwDecode => "hwdec",
            Key::KeepAspectWindow => "keepaspect-window",
            Key::InputDefaultBindings => "input-default-bindings",
            Key::InputVoKeyboard => "input-vo-keyboard",
            Key::OnScreenController => "osc",
            Key::Terminal => "terminal",
            Key::Pause => "pause",
            Key::Volume => "volume",
            Key::Fullscreen => "fullscreen",
            Key::SubtitleId => "sid",
            Key::SubtitleScale => "sub-scale",
            Key::SubtitlePosition => "sub-pos",
            Key::VideoZoom => "video-zoom",
            Key::Deband => "deband",
            Key::DebandIterations => "deband-iterations",
            Key::DownScale => "dscale",
            Key::Scale => "scale",
            Key::ChromaScale => "cscale",
            Key::SigmoidUpscaling => "sigmoid-upscaling",
            Key::Interpolation => "interpolation",
            Key::VideoSync => "video-sync",
            Key::TemporalScale => "tscale",
            Key::TimePosition => "time-pos",
            Key::Duration => "duration",
            Key::HwDecodeCurrent => "hwdec-current",
            Key::OsdWidth => "osd-width",
            Key::OsdHeight => "osd-height",
            Key::OutputWidth => "video-out-params/dw",
            Key::OutputHeight => "video-out-params/dh",
            Key::TrackCount => "track-list/count",
        }
    }
}

/// A fixed word of the engine's vocabulary, used as the value of a setting.
#[derive(Clone, Copy, Debug, PartialEq, Eq, Structural)]
pub enum Word {
    No,
    Yes,
    Auto,
    Gpu,
    GpuNext,
    Metal,
    Vulkan,
    OpenGl,
    Cocoa,
    MoltenVk,
    VideoToolbox,
    Mitchell,
    EwaLanczosSharp,
    Spline36,
    Bilinear,
    DisplayResample,
    Oversample,
    Audio,
}

impl Word {
    /// The word as the engine spells it.
    pub open spec fn spec_text(self) -> Seq<char> {
        match self {
            Word::No => "no"@,
            Word::Yes => "yes"@,
            Word::Auto => "auto"@,
            Word::Gpu => "gpu"@,
            Word::GpuNext => "gpu-next"@,
            Word::Metal => "metal"@,
            Word::Vulkan => "vulkan"@,
            Word::OpenGl => "opengl"@,
            Word::Cocoa => "cocoa"@,
            Word::MoltenVk => "moltenvk"@,
            Word::VideoToolbox => "videotoolbox"@,
            Word::Mitchell => "mitchell"@,
            Word::EwaLanczosSharp => "ewa_lanczossharp"@,
            Word::Spline36 => "spline36"@,
            Word::Bilinear => "bilinear"@,
            Word::DisplayResample => "display-resample"@,
            Word::Oversample => "oversample"@,
            Word::Audio => "audio"@,
        }
    }

    /// The word as the engine spells it.
    pub fn text(self) -> (text: &'static str)
        ensures
            text@ == self.spec_text(),
    {
        match self {
            Word::No => "no",
            Word::Yes => "yes",
            Word::Auto => "auto",
            Word::Gpu => "gpu",
            Word::GpuNext => "gpu-next",
            Word::Metal => "metal",
            Word::Vulkan => "vulkan",
            Word::OpenGl => "opengl",
            Word::Cocoa => "cocoa",
            Word::MoltenVk => "moltenvk",
            Word::VideoToolbox => "videotoolbox",
            Word::Mitchell => "mitchell",
            Word::EwaLanczosSharp => "ewa_lanczossharp",
            Word::Spline36 => "spline36",
            Word::Bilinear => "bilinear",
            Word::DisplayResample => "display-resample",
            Word::Oversample => "oversample",
            Word::Audio => "audio",
        }
    }
}

/// The value written to an option or property, in the engine's own types.
///
/// The engine's floating-point numbers are carried as whole millionths:
/// `Millionths(1_500_000)` stands for 1.5.
#[derive(Clone, Copy, Debug, PartialEq, Eq, Structural)]
pub enum Scalar {
    /// An on/off flag.
    Flag(bool),
    /// A 64-bit integer.
    Integer(i64),
    /// A decimal number, in millionths.
    Millionths(i64),
    /// A fixed word.
    Word(Word),
    /// A native address, written as a hexadecimal string.
    Address(usize),
}

/// One write of an option (before the engine starts) or of a property (while
/// it runs).
#[derive(Clone, Copy, Debug, PartialEq, Eq, Structural)]
pub struct Setting {
    pub key: Key,
    pub value: Scalar,
}

/// The name of a command issued to a running engine.
#[derive(Clone, Copy, Debug, PartialEq, Eq, Structural)]
pub enum Verb {
    LoadFile,
    SubAdd,
    SubReload,
    Seek,
    Quit,
}

impl Verb {
    /// The engine's name for this command.
    pub open spec fn spec_name(self) -> Seq<char> {
        match self {
            Verb::LoadFile => "loadfile"@,
            Verb::SubAdd => "sub-add"@,
            Verb::SubReload => "sub-reload"@,
            Verb::Seek => "seek"@,
            Verb::Quit => "quit"@,
        }
    }

    /// The engine's name for this command.
    pub fn name(self) -> (text: &'static str)
        ensures
            text@ == self.spec_name(),
    {
        match self {
            Verb::LoadFile => "loadfile",
            Verb::SubAdd => "sub-add",
            Verb::SubReload => "sub-reload",
            Verb::Seek => "seek",
            Verb::Quit => "quit",
        }
    }
}

/// A command with its arguments, each argument already in the engine's text
/// form.
#[derive(Clone, Debug, PartialEq, Eq)]
pub struct Command {
    pub verb: Verb,
    pub args: Vec<String>,
}

/// What a [`Command`] is, mathematically: its verb and the text of each
/// argument.
pub struct CommandModel {
    pub verb: Verb,
    pub args: Seq<Seq<char>>,
}

impl DeepView for Command {
    type V = CommandModel;

    open spec fn deep_view(&self) -> CommandModel {
        CommandModel { verb: self.verb, args: self.args.deep_view() }
    }
}

/// One action on a running engine.
#[derive(Clone, Debug, PartialEq, Eq)]
pub enum EngineOp {
    /// Write a property.
    Write(Setting),
    /// Issue a command.
    Run(Command),
}

/// What an [`EngineOp`] is, mathematically.
pub enum EngineOpModel {
    Write(Setting),
    Run(CommandModel),
}

impl DeepView for EngineOp {
    type V = EngineOpModel;

    open spec fn deep_view(&self) -> EngineOpModel {
        match self {
            EngineOp::Write(setting) => EngineOpModel::Write(*setting),
            EngineOp::Run(command) => EngineOpModel::Run(command.deep_view()),
        }
    }
}

/// The type in which a property is read.
#[derive(Clone, Copy, Debug, PartialEq, Eq, Structural)]
pub enum Format {
    Flag,
    Integer,
    Decimal,
    Text,
}

/// What the engine answered to the read of one property.
///
/// A decimal answer is carried in millionths, as in [`Scalar::Millionths`].
#[derive(Clone, Debug, PartialEq, Eq)]
pub enum Reply {
    /// The read failed, or gave a value of another type.
    Missing,
    Flag(bool),
    Integer(i64),
    Millionths(i64),
    Text(String),
}

/// What a [`Reply`] is, mathematically.
pub enum ReplyModel {
    Missing,
    Flag(bool),
    Integer(i64),
    Millionths(i64),
    Text(Seq<char>),
}

impl DeepView for Reply {
    type V = ReplyModel;

    open spec fn deep_view(&self) -> ReplyModel {
        match self {
            Reply::Missing => ReplyModel::Missing,
            Reply::Flag(b) => ReplyModel::Flag(*b),
            Reply::Integer(n) => ReplyModel::Integer(*n),
            Reply::Millionths(n) => ReplyModel::Millionths(*n),
            Reply::Text(s) => ReplyModel::Text(s@),
        }
    }
}

impl ReplyModel {
    /// The flag that was read, or `default` where none was.
    pub open spec fn flag_or(self, default: bool) -> bool {
        match self {
            ReplyModel::Flag(b) => b,
            _ => default,
        }
    }

    /// The integer that was read, or `default` where none was.
    pub open spec fn integer_or(self, default: i64) -> i64 {
        match self {
            ReplyModel::Integer(n) => n,
            _ => default,
        }
    }

    /// The decimal that was read, in millionths, or `default` where none was.
    pub open spec fn millionths_or(self, default: i64) -> i64 {
        match self {
            ReplyModel::Millionths(n) => n,
            _ => default,
        }
    }

    /// The text that was read, or `default` where none was.
    pub open spec fn text_or(self, default: Seq<char>) -> Seq<char> {
        match self {
            ReplyModel::Text(s) => s,
            _ => default,
        }
    }
}

impl Reply {
    /// The flag that was read, or `default` where the read failed.
    pub fn flag_or(&self, default: bool) -> (b: bool)
        ensures
            b == self.deep_view().flag_or(default),
    {
        match self {
            Reply::Flag(b) => *b,
            _ => default,
        }
    }

    /// The integer that was read, or `default` where the read failed.
    pub fn integer_or(&self, default: i64) -> (n: i64)
        ensures
            n == self.deep_view().integer_or(default),
    {
        match self {
            Reply::Integer(n) => *n,
            _ => default,
        }
    }

    /// The decimal that was read, in millionths, or `default` where the read
    /// failed.
    pub fn millionths_or(&self, default: i64) -> (n: i64)
        ensures
            n == self.deep_view().millionths_or(default),
    {
        match self {
            Reply::Millionths(n) => *n,
            _ => default,
        }
    }

    /// The text that was read, or `default` where the read failed.
    pub fn text_or(&self, default: &str) -> (s: String)
        ensures
            s@ == self.deep_view().text_or(default@),
    {
        match self {
            Reply::Text(s) => s.clone(),
            _ => default.to_owned(),
        }
    }
}

} // verus!
