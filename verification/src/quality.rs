//! Quality profiles: three named bundles of scaling, debanding, interpolation
//! and synchronisation settings. Every name resolves to one of the three.

use vstd::prelude::*;
use crate::port::{Key, Setting, Scalar, Word};
use crate::text::text_eq;

verus! {

/// A quality profile.
#[derive(Clone, Copy, Debug, PartialEq, Eq, Structural)]
pub enum QualityProfile {
    /// The sharpest picture, at the highest cost.
    Quality,
    /// Cheap scaling for smooth motion on weak hardware.
    Smooth,
    /// The middle ground, and what any unknown name falls back to.
    Balanced,
}

/// The profile that a name resolves to: `quality` and `smooth` to their
/// profiles, every other text to the balanced one.
pub open spec fn spec_resolve(name: Seq<char>) -> QualityProfile {
    if name == "quality"@ {
        QualityProfile::Quality
    } else if name == "smooth"@ {
        QualityProfile::Smooth
    } else {
        QualityProfile::Balanced
    }
}

/// A setting of a key to a word.
pub open spec fn word_setting(key: Key, word: Word) -> Setting {
    Setting { key, value: Scalar::Word(word) }
}

/// The settings that every profile starts from.
pub open spec fn spec_baseline() -> Seq<Setting> {
    seq![
        word_setting(Key::Deband, Word::Yes),
        word_setting(Key::DownScale, Word::Mitchell),
        word_setting(Key::Scale, Word::EwaLanczosSharp),
        word_setting(Key::ChromaScale, Word::Spline36),
        word_setting(Key::SigmoidUpscaling, Word::Yes),
    ]
}

/// The settings that a profile adds to the baseline, in the order in which
/// they are written. A later write of a key replaces an earlier one.
pub open spec fn spec_refinement(profile: QualityProfile) -> Seq<Setting> {
    match profile {
        QualityProfile::Quality => seq![
            Setting { key: Key::DebandIterations, value: Scalar::Integer(3) },
            word_setting(Key::Interpolation, Word::Yes),
            word_setting(Key::VideoSync, Word::DisplayResample),
            word_setting(Key::TemporalScale, Word::Oversample),
        ],
        QualityProfile::Smooth => seq![
            word_setting(Key::Scale, Word::Bilinear),
            word_setting(Key::ChromaScale, Word::Bilinear),
            word_setting(Key::Deband, Word::No),
            word_setting(Key::Interpolation, Word::Yes),
            word_setting(Key::VideoSync, Word::DisplayResample),
            word_setting(Key::TemporalScale, Word::Oversample),
        ],
        QualityProfile::Balanced => seq![
            Setting { key: Key::DebandIterations, value: Scalar::Integer(2) },
            word_setting(Key::Interpolation, Word::No),
            word_setting(Key::VideoSync, Word::Audio),
        ],
    }
}

/// All the settings of a profile, in the order in which they are written.
pub open spec fn spec_bundle(profile: QualityProfile) -> Seq<Setting> {
    spec_baseline() + spec_refinement(profile)
}

/// The settings written for a request: the profile's bundle while a session
/// is active, nothing otherwise.
pub open spec fn spec_quality_plan(active: bool, profile: QualityProfile) -> Seq<Setting> {
    if active {
        spec_bundle(profile)
    } else {
        Seq::empty()
    }
}

impl QualityProfile {
    /// The canonical name of the profile.
    pub open spec fn spec_name(self) -> Seq<char> {
        match self {
            QualityProfile::Quality => "quality"@,
            QualityProfile::Smooth => "smooth"@,
            QualityProfile::Balanced => "balanced"@,
        }
    }

    /// The canonical name of the profile.
    pub fn name(self) -> (text: &'static str)
        ensures
            text@ == self.spec_name(),
    {
        match self {
            QualityProfile::Quality => "quality",
            QualityProfile::Smooth => "smooth",
            QualityProfile::Balanced => "balanced",
        }
    }

    /// The profile that a name resolves to. Every text resolves.
    pub fn resolve(name: &str) -> (profile: QualityProfile)
        ensures
            profile == spec_resolve(name@),
    {
        if text_eq(name, "quality") {
            QualityProfile::Quality
        } else if text_eq(name, "smooth") {
            QualityProfile::Smooth
        } else {
            QualityProfile::Balanced
        }
    }

    /// All the settings of the profile, in the order in which they are
    /// written.
    pub fn bundle(self) -> (settings: Vec<Setting>)
        ensures
            settings@ == spec_bundle(self),
    {
        let mut settings: Vec<Setting> = Vec::new();
        settings.push(word(Key::Deband, Word::Yes));
        settings.push(word(Key::DownScale, Word::Mitchell));
        settings.push(word(Key::Scale, Word::EwaLanczosSharp));
        settings.push(word(Key::ChromaScale, Word::Spline36));
        settings.push(word(Key::SigmoidUpscaling, Word::Yes));
        match self {
            QualityProfile::Quality => {
                settings.push(Setting { key: Key::DebandIterations, value: Scalar::Integer(3) });
                settings.push(word(Key::Interpolation, Word::Yes));
                settings.push(word(Key::VideoSync, Word::DisplayResample));
                settings.push(word(Key::TemporalScale, Word::Oversample));
            },
            QualityProfile::Smooth => {
                settings.push(word(Key::Scale, Word::Bilinear));
                settings.push(word(Key::ChromaScale, Word::Bilinear));
                settings.push(word(Key::Deband, Word::No));
                settings.push(word(Key::Interpolation, Word::Yes));
                settings.push(word(Key::VideoSync, Word::DisplayResample));
                settings.push(word(Key::TemporalScale, Word::Oversample));
            },
            QualityProfile::Balanced => {
                settings.push(Setting { key: Key::DebandIterations, value: Scalar::Integer(2) });
                settings.push(word(Key::Interpolation, Word::No));
                settings.push(word(Key::VideoSync, Word::Audio));
            },
        }
        assert(settings@ =~= spec_bundle(self));
        settings
    }
}

fn word(key: Key, value: Word) -> (setting: Setting)
    ensures
        setting == word_setting(key, value),
{
    Setting { key, value: Scalar::Word(value) }
}

/// Resolves a requested profile name and plans its application: the profile
/// that the name resolves to, and the settings to write, which are the
/// profile's bundle while a session is active and none otherwise.
pub fn quality_plan(active: bool, name: &str) -> (plan: (QualityProfile, Vec<Setting>))
    ensures
        plan.0 == spec_resolve(name@),
        plan.1@ == spec_quality_plan(active, plan.0),
{
    let profile = QualityProfile::resolve(name);
    let settings = if active {
        profile.bundle()
    } else {
        Vec::new()
    };
    (profile, settings)
}

/// A canonical name resolves to its own profile, so resolving the name of a
/// resolved profile changes nothing.
pub proof fn lemma_canonical_names_resolve(profile: QualityProfile)
    ensures
        spec_resolve(profile.spec_name()) == profile,
{
    reveal_strlit("quality");
    reveal_strlit("smooth");
    reveal_strlit("balanced");
    assert("quality"@.len() == 7);
    assert("smooth"@.len() == 6);
    assert("balanced"@.len() == 8);
}

/// Whatever the name, the profile it resolves to is one of the three, and
/// its canonical name resolves to it again.
pub proof fn lemma_resolve_is_idempotent(name: Seq<char>)
    ensures
        spec_resolve(spec_resolve(name).spec_name()) == spec_resolve(name),
{
    lemma_canonical_names_resolve(spec_resolve(name));
}

} // verus!
