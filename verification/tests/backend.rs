use player_bridge::backend::{
    arch_from_name, candidate_list, override_from_lowered, prefers_view, surface_override, switched_on, Arch,
    BackendProfile, Candidate, GpuApi, GpuContext, HwDecode, Platform, Strictness, SurfaceKind, SurfaceOverride,
    VideoOutput,
};
use player_bridge::port::Word;

fn platform(arch: Arch, surface_override: SurfaceOverride, legacy: bool) -> Platform {
    Platform { arch, surface_override, legacy_layer_output: legacy }
}

#[test]
fn arch_names() {
    assert_eq!(arch_from_name("x86_64"), Arch::Intel);
    assert_eq!(arch_from_name("aarch64"), Arch::Other);
    assert_eq!(arch_from_name(""), Arch::Other);
    assert_eq!(arch_from_name("X86_64"), Arch::Other);
}

#[test]
fn override_is_read_in_any_case() {
    assert_eq!(surface_override("layer"), SurfaceOverride::ForceLayer);
    assert_eq!(surface_override("LAYER"), SurfaceOverride::ForceLayer);
    assert_eq!(surface_override("NsView"), SurfaceOverride::ForceView);
    assert_eq!(surface_override(""), SurfaceOverride::Unset);
    assert_eq!(surface_override("view"), SurfaceOverride::Unset);
    assert_eq!(override_from_lowered("NSVIEW"), SurfaceOverride::Unset);
    assert_eq!(override_from_lowered("nsview"), SurfaceOverride::ForceView);
}

#[test]
fn flag_settings() {
    assert!(switched_on(Some("1")));
    assert!(switched_on(Some("true")));
    assert!(switched_on(Some("TRUE")));
    assert!(switched_on(Some("tRuE")));
    assert!(!switched_on(Some("yes")));
    assert!(!switched_on(Some("0")));
    assert!(!switched_on(Some("")));
    assert!(!switched_on(Some("true ")));
    assert!(!switched_on(None));
}

#[test]
fn view_preference() {
    assert!(prefers_view(platform(Arch::Intel, SurfaceOverride::Unset, false)));
    assert!(!prefers_view(platform(Arch::Other, SurfaceOverride::Unset, false)));
    assert!(!prefers_view(platform(Arch::Intel, SurfaceOverride::ForceLayer, false)));
    assert!(prefers_view(platform(Arch::Other, SurfaceOverride::ForceView, false)));
}

#[test]
fn default_order_elsewhere_is_the_layer_alone() {
    let list = candidate_list(platform(Arch::Other, SurfaceOverride::Unset, false));
    assert_eq!(
        list,
        vec![Candidate {
            kind: SurfaceKind::Layer,
            profile: BackendProfile {
                output: VideoOutput::GpuNext,
                api: Some(GpuApi::Metal),
                context: GpuContext::Cocoa,
                hwdec: HwDecode::VideoToolbox,
            },
            strictness: Strictness::FallBack(GpuApi::Vulkan, GpuContext::MoltenVk),
        }]
    );
}

#[test]
fn legacy_layer_uses_vulkan() {
    let list = candidate_list(platform(Arch::Other, SurfaceOverride::Unset, true));
    assert_eq!(list.len(), 1);
    assert_eq!(list[0].profile.output, VideoOutput::Gpu);
    assert_eq!(list[0].profile.api, Some(GpuApi::Vulkan));
    assert_eq!(list[0].profile.context, GpuContext::MoltenVk);
    assert_eq!(list[0].strictness, Strictness::Lenient);
}

#[test]
fn intel_order() {
    let list = candidate_list(platform(Arch::Intel, SurfaceOverride::Unset, true));
    let kinds: Vec<SurfaceKind> = list.iter().map(|c| c.kind).collect();
    assert_eq!(kinds, vec![SurfaceKind::View, SurfaceKind::View, SurfaceKind::Layer]);
    for candidate in &list {
        assert_eq!(candidate.profile.output, VideoOutput::Gpu);
        assert_eq!(candidate.profile.api, None);
        assert_eq!(candidate.profile.context, GpuContext::Cocoa);
    }
    assert_eq!(list[0].strictness, Strictness::RequireOutputAndContext);
    assert_eq!(list[2].strictness, Strictness::RequireOutput);
    let forced = candidate_list(platform(Arch::Intel, SurfaceOverride::ForceLayer, false));
    assert_eq!(forced, vec![list[2]]);
}

#[test]
fn forced_view_order_elsewhere() {
    let list = candidate_list(platform(Arch::Other, SurfaceOverride::ForceView, false));
    assert_eq!(list.len(), 4);
    assert_eq!(list[0].profile.api, Some(GpuApi::Metal));
    assert_eq!(list[0].strictness, Strictness::RequirePair);
    assert_eq!(list[1].profile.api, Some(GpuApi::OpenGl));
    assert_eq!(list[2].profile.api, None);
    assert_eq!(list[3].kind, SurfaceKind::Layer);
    assert!(list[..3].iter().all(|c| c.kind == SurfaceKind::View));
}

#[test]
fn profile_words() {
    assert_eq!(VideoOutput::GpuNext.word(), Word::GpuNext);
    assert_eq!(VideoOutput::Gpu.word().text(), "gpu");
    assert_eq!(GpuApi::OpenGl.word().text(), "opengl");
    assert_eq!(GpuApi::Metal.word().text(), "metal");
    assert_eq!(GpuContext::MoltenVk.word().text(), "moltenvk");
    assert_eq!(HwDecode::VideoToolbox.word().text(), "videotoolbox");
    assert_eq!(HwDecode::Auto.word().text(), "auto");
}
