//! GPU backend profiles and the ordered list of candidates that a launch
//! tries. Which candidates there are, and in which order, is data assembled
//! once from the platform; the code that tries them does not know them.

use vstd::prelude::*;
use crate::port::Word;
use crate::text::{eq_ignore_ascii_case, lowercase, text_eq, to_lowercase, ascii_fold_eq};

verus! {

/// The kind of native surface whose address is bound to the engine as its
/// window token. Resizing and cleanup differ by kind.
#[derive(Clone, Copy, Debug, PartialEq, Eq, Structural)]
pub enum SurfaceKind {
    /// The compositing layer hosted by the container view.
    Layer,
    /// The container view itself.
    View,
}

/// The engine's video output mode.
#[derive(Clone, Copy, Debug, PartialEq, Eq, Structural)]
pub enum VideoOutput {
    Gpu,
    GpuNext,
}

/// The GPU API that the video output renders with.
#[derive(Clone, Copy, Debug, PartialEq, Eq, Structural)]
pub enum GpuApi {
    Metal,
    Vulkan,
    OpenGl,
}

/// The GPU context that connects the API to the window system.
#[derive(Clone, Copy, Debug, PartialEq, Eq, Structural)]
pub enum GpuContext {
    Cocoa,
    MoltenVk,
}

/// The hardware decoding mode.
#[derive(Clone, Copy, Debug, PartialEq, Eq, Structural)]
pub enum HwDecode {
    VideoToolbox,
    Auto,
}

impl VideoOutput {
    /// The engine's word for this output mode.
    pub open spec fn spec_word(self) -> Word {
        match self {
            VideoOutput::Gpu => Word::Gpu,
            VideoOutput::GpuNext => Word::GpuNext,
        }
    }

    /// The engine's word for this output mode.
    pub fn word(self) -> (w: Word)
        ensures
            w == self.spec_word(),
    {
        match self {
            VideoOutput::Gpu => Word::Gpu,
            VideoOutput::GpuNext => Word::GpuNext,
        }
    }
}

impl GpuApi {
    /// The engine's word for this API.
    pub open spec fn spec_word(self) -> Word {
        match self {
            GpuApi::Metal => Word::Metal,
            GpuApi::Vulkan => Word::Vulkan,
            GpuApi::OpenGl => Word::OpenGl,
        }
    }

    /// The engine's word for this API.
    pub fn word(self) -> (w: Word)
        ensures
            w == self.spec_word(),
    {
        match self {
            GpuApi::Metal => Word::Metal,
            GpuApi::Vulkan => Word::Vulkan,
            GpuApi::OpenGl => Word::OpenGl,
        }
    }
}

impl GpuContext {
    /// The engine's word for this context.
    pub open spec fn spec_word(self) -> Word {
        match self {
            GpuContext::Cocoa => Word::Cocoa,
            GpuContext::MoltenVk => Word::MoltenVk,
        }
    }

    /// The engine's word for this context.
    pub fn word(self) -> (w: Word)
        ensures
            w == self.spec_word(),
    {
        match self {
            GpuContext::Cocoa => Word::Cocoa,
            GpuContext::MoltenVk => Word::MoltenVk,
        }
    }
}

impl HwDecode {
    /// The engine's word for this decoding mode.
    pub open spec fn spec_word(self) -> Word {
        match self {
            HwDecode::VideoToolbox => Word::VideoToolbox,
            HwDecode::Auto => Word::Auto,
        }
    }

    /// The engine's word for this decoding mode.
    pub fn word(self) -> (w: Word)
        ensures
            w == self.spec_word(),
    {
        match self {
            HwDecode::VideoToolbox => Word::VideoToolbox,
            HwDecode::Auto => Word::Auto,
        }
    }
}

/// A backend profile: the video output mode, GPU API, GPU context and
/// hardware decoding mode that are tried as a unit. A profile without an API
/// leaves the choice of API to the engine.
#[derive(Clone, Copy, Debug, PartialEq, Eq, Structural)]
pub struct BackendProfile {
    pub output: VideoOutput,
    pub api: Option<GpuApi>,
    pub context: GpuContext,
    pub hwdec: HwDecode,
}

/// What becomes of an initialization attempt when the engine rejects one of
/// the profile's GPU options.
#[derive(Clone, Copy, Debug, PartialEq, Eq, Structural)]
pub enum Strictness {
    /// A rejected output, API or context is ignored.
    Lenient,
    /// A rejected output fails the attempt at once; API and context are
    /// ignored when rejected.
    RequireOutput,
    /// A rejected output or context fails the attempt at once; a rejected
    /// API is ignored.
    RequireOutputAndContext,
    /// A rejected output is ignored. API and context are both tried, and the
    /// attempt fails if either was rejected.
    RequirePair,
    /// A rejected output is ignored. If the API is rejected, or the context
    /// after it, the given API and context are set in their place, and their
    /// own rejection is ignored.
    FallBack(GpuApi, GpuContext),
}

/// One entry of the launch order: a surface kind, the profile to bind to it
/// and how strictly the profile is applied.
#[derive(Clone, Copy, Debug, PartialEq, Eq, Structural)]
pub struct Candidate {
    pub kind: SurfaceKind,
    pub profile: BackendProfile,
    pub strictness: Strictness,
}

/// The processor architecture, as far as the launch order depends on it.
#[derive(Clone, Copy, Debug, PartialEq, Eq, Structural)]
pub enum Arch {
    /// `x86_64`.
    Intel,
    /// Any other architecture.
    Other,
}

/// An override of the preferred surface kind.
#[derive(Clone, Copy, Debug, PartialEq, Eq, Structural)]
pub enum SurfaceOverride {
    /// No override: the architecture decides.
    Unset,
    /// Bind the layer only.
    ForceLayer,
    /// Try the view first.
    ForceView,
}

/// The inputs from which the launch order is assembled.
#[derive(Clone, Copy, Debug, PartialEq, Eq, Structural)]
pub struct Platform {
    pub arch: Arch,
    pub surface_override: SurfaceOverride,
    /// Whether the layer is driven by the older Vulkan output in place of the
    /// default one.
    pub legacy_layer_output: bool,
}

/// The architecture that a name such as `std::env::consts::ARCH` stands for.
pub open spec fn spec_arch(name: Seq<char>) -> Arch {
    if name == "x86_64"@ {
        Arch::Intel
    } else {
        Arch::Other
    }
}

/// The architecture that a name such as `std::env::consts::ARCH` stands for.
pub fn arch_from_name(name: &str) -> (arch: Arch)
    ensures
        arch == spec_arch(name@),
{
    if text_eq(name, "x86_64") {
        Arch::Intel
    } else {
        Arch::Other
    }
}

/// The override that a lower-case setting stands for: `layer`, `nsview`, or
/// anything else for none.
pub open spec fn spec_override(lowered: Seq<char>) -> SurfaceOverride {
    if lowered == "layer"@ {
        SurfaceOverride::ForceLayer
    } else if lowered == "nsview"@ {
        SurfaceOverride::ForceView
    } else {
        SurfaceOverride::Unset
    }
}

/// The override that a setting already in lower case stands for.
pub fn override_from_lowered(lowered: &str) -> (choice: SurfaceOverride)
    ensures
        choice == spec_override(lowered@),
{
    if text_eq(lowered, "layer") {
        SurfaceOverride::ForceLayer
    } else if text_eq(lowered, "nsview") {
        SurfaceOverride::ForceView
    } else {
        SurfaceOverride::Unset
    }
}

/// The override that a setting stands for, whatever its case. An unset
/// setting is the empty text.
pub fn surface_override(setting: &str) -> (choice: SurfaceOverride)
    ensures
        choice == spec_override(lowercase(setting@)),
{
    let lowered = to_lowercase(setting);
    override_from_lowered(lowered.as_str())
}

/// Whether a setting switches a flag on: `1`, or `true` in any ASCII case.
pub open spec fn spec_switched_on(setting: Seq<char>) -> bool {
    setting == "1"@ || ascii_fold_eq(setting, "true"@)
}

/// Whether a setting switches a flag on. An unset setting does not.
pub fn switched_on(setting: Option<&str>) -> (on: bool)
    ensures
        on == (setting matches Some(text) && spec_switched_on(text@)),
{
    match setting {
        Some(text) => text_eq(text, "1") || eq_ignore_ascii_case(text, "true"),
        None => false,
    }
}

/// Whether the view is tried before the layer.
pub open spec fn spec_prefers_view(platform: Platform) -> bool {
    match platform.surface_override {
        SurfaceOverride::ForceLayer => false,
        SurfaceOverride::ForceView => true,
        SurfaceOverride::Unset => platform.arch == Arch::Intel,
    }
}

/// The profile that every candidate gets on Intel: the plain GPU output on
/// the Cocoa context, with the API left to the engine.
pub open spec fn intel_profile() -> BackendProfile {
    BackendProfile {
        output: VideoOutput::Gpu,
        api: None,
        context: GpuContext::Cocoa,
        hwdec: HwDecode::VideoToolbox,
    }
}

/// The view bound to Metal.
pub open spec fn view_metal() -> Candidate {
    Candidate {
        kind: SurfaceKind::View,
        profile: BackendProfile {
            output: VideoOutput::GpuNext,
            api: Some(GpuApi::Metal),
            context: GpuContext::Cocoa,
            hwdec: HwDecode::VideoToolbox,
        },
        strictness: Strictness::RequirePair,
    }
}

/// The view bound to OpenGL.
pub open spec fn view_opengl() -> Candidate {
    Candidate {
        kind: SurfaceKind::View,
        profile: BackendProfile {
            output: VideoOutput::Gpu,
            api: Some(GpuApi::OpenGl),
            context: GpuContext::Cocoa,
            hwdec: HwDecode::VideoToolbox,
        },
        strictness: Strictness::Lenient,
    }
}

/// The view bound to the plain GPU output, with the API left to the engine.
pub open spec fn view_gpu() -> Candidate {
    Candidate {
        kind: SurfaceKind::View,
        profile: BackendProfile {
            output: VideoOutput::Gpu,
            api: None,
            context: GpuContext::Cocoa,
            hwdec: HwDecode::VideoToolbox,
        },
        strictness: Strictness::Lenient,
    }
}

/// The view on Intel: output and context are both required.
pub open spec fn view_intel() -> Candidate {
    Candidate {
        kind: SurfaceKind::View,
        profile: intel_profile(),
        strictness: Strictness::RequireOutputAndContext,
    }
}

/// The layer, as the platform drives it.
pub open spec fn layer_candidate(platform: Platform) -> Candidate {
    if platform.arch == Arch::Intel {
        Candidate {
            kind: SurfaceKind::Layer,
            profile: intel_profile(),
            strictness: Strictness::RequireOutput,
        }
    } else if platform.legacy_layer_output {
        Candidate {
            kind: SurfaceKind::Layer,
            profile: BackendProfile {
                output: VideoOutput::Gpu,
                api: Some(GpuApi::Vulkan),
                context: GpuContext::MoltenVk,
                hwdec: HwDecode::VideoToolbox,
            },
            strictness: Strictness::Lenient,
        }
    } else {
        Candidate {
            kind: SurfaceKind::Layer,
            profile: BackendProfile {
                output: VideoOutput::GpuNext,
                api: Some(GpuApi::Metal),
                context: GpuContext::Cocoa,
                hwdec: HwDecode::VideoToolbox,
            },
            strictness: Strictness::FallBack(GpuApi::Vulkan, GpuContext::MoltenVk),
        }
    }
}

/// The launch order of a platform.
///
/// Where the view is preferred, the view candidates come first and the layer
/// is the last resort: on Intel the view is tried twice with the one profile
/// that Intel has, elsewhere with Metal, then OpenGL, then the plain GPU
/// output. Where the view is not preferred, the layer is the only candidate.
pub open spec fn spec_candidates(platform: Platform) -> Seq<Candidate> {
    if !spec_prefers_view(platform) {
        seq![layer_candidate(platform)]
    } else if platform.arch == Arch::Intel {
        seq![view_intel(), view_intel(), layer_candidate(platform)]
    } else {
        seq![view_metal(), view_opengl(), view_gpu(), layer_candidate(platform)]
    }
}

/// Whether the view is tried before the layer.
pub fn prefers_view(platform: Platform) -> (view_first: bool)
    ensures
        view_first == spec_prefers_view(platform),
{
    match platform.surface_override {
        SurfaceOverride::ForceLayer => false,
        SurfaceOverride::ForceView => true,
        SurfaceOverride::Unset => platform.arch == Arch::Intel,
    }
}

/// The launch order of a platform: the candidates, first choice first.
pub fn candidate_list(platform: Platform) -> (candidates: Vec<Candidate>)
    ensures
        candidates@ == spec_candidates(platform),
{
    let intel = platform.arch == Arch::Intel;
    let cocoa_gpu = BackendProfile {
        output: VideoOutput::Gpu,
        api: None,
        context: GpuContext::Cocoa,
        hwdec: HwDecode::VideoToolbox,
    };
    let metal = BackendProfile {
        output: VideoOutput::GpuNext,
        api: Some(GpuApi::Metal),
        context: GpuContext::Cocoa,
        hwdec: HwDecode::VideoToolbox,
    };
    let layer = if intel {
        Candidate { kind: SurfaceKind::Layer, profile: cocoa_gpu, strictness: Strictness::RequireOutput }
    } else if platform.legacy_layer_output {
        Candidate {
            kind: SurfaceKind::Layer,
            profile: BackendProfile {
                output: VideoOutput::Gpu,
                api: Some(GpuApi::Vulkan),
                context: GpuContext::MoltenVk,
                hwdec: HwDecode::VideoToolbox,
            },
            strictness: Strictness::Lenient,
        }
    } else {
        Candidate {
            kind: SurfaceKind::Layer,
            profile: metal,
            strictness: Strictness::FallBack(GpuApi::Vulkan, GpuContext::MoltenVk),
        }
    };
    let mut candidates: Vec<Candidate> = Vec::new();
    if prefers_view(platform) {
        if intel {
            let view = Candidate {
                kind: SurfaceKind::View,
                profile: cocoa_gpu,
                strictness: Strictness::RequireOutputAndContext,
            };
            candidates.push(view);
            candidates.push(view);
        } else {
            candidates.push(
                Candidate { kind: SurfaceKind::View, profile: metal, strictness: Strictness::RequirePair },
            );
            candidates.push(
                Candidate {
                    kind: SurfaceKind::View,
                    profile: BackendProfile {
                        output: VideoOutput::Gpu,
                        api: Some(GpuApi::OpenGl),
                        context: GpuContext::Cocoa,
                        hwdec: HwDecode::VideoToolbox,
                    },
                    strictness: Strictness::Lenient,
                },
            );
            candidates.push(
                Candidate { kind: SurfaceKind::View, profile: cocoa_gpu, strictness: Strictness::Lenient },
            );
        }
    }
    candidates.push(layer);
    assert(candidates@ =~= spec_candidates(platform));
    candidates
}

} // verus!
