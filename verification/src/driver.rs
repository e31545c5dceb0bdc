//! The graphics driver descriptor: which driver library the graphics loader
//! is pointed at before an engine starts, and how.
//!
//! Looking for files, writing the descriptor and changing the environment
//! are the host's work. What to look for, what to write and what to change
//! is decided here.

use vstd::prelude::*;
use crate::backend::Arch;

verus! {

/// A place where the driver library is installed.
#[derive(Clone, Copy, Debug, PartialEq, Eq, Structural)]
pub enum DriverLibrary {
    /// Where it is installed on Apple silicon.
    Homebrew,
    /// Where it is installed on Intel.
    UsrLocal,
}

/// What is done to the variable that names the driver descriptor.
#[derive(Clone, Copy, Debug, PartialEq, Eq, Structural)]
pub enum DriverEnv {
    /// Point the variable at the descriptor file.
    Point,
    /// Remove the variable, so that no such driver is loaded.
    Clear,
}

impl DriverLibrary {
    /// The path of the library.
    pub open spec fn spec_path(self) -> Seq<char> {
        match self {
            DriverLibrary::Homebrew => "/opt/homebrew/lib/libMoltenVK.dylib"@,
            DriverLibrary::UsrLocal => "/usr/local/lib/libMoltenVK.dylib"@,
        }
    }

    /// The path of the library.
    pub fn path(self) -> (text: &'static str)
        ensures
            text@ == self.spec_path(),
    {
        match self {
            DriverLibrary::Homebrew => "/opt/homebrew/lib/libMoltenVK.dylib",
            DriverLibrary::UsrLocal => "/usr/local/lib/libMoltenVK.dylib",
        }
    }
}

/// The name of the variable that names the driver descriptor.
pub open spec fn spec_env_name() -> Seq<char> {
    "VK_ICD_FILENAMES"@
}

/// The path of the descriptor file.
pub open spec fn spec_descriptor_path() -> Seq<char> {
    "/tmp/moltenvk_icd_auto.json"@
}

/// The two places in the order in which they are looked at: the one of the
/// architecture first.
pub open spec fn spec_library_order(arch: Arch) -> (DriverLibrary, DriverLibrary) {
    match arch {
        Arch::Intel => (DriverLibrary::UsrLocal, DriverLibrary::Homebrew),
        Arch::Other => (DriverLibrary::Homebrew, DriverLibrary::UsrLocal),
    }
}

/// The library that the descriptor names: the first of the two that is
/// there, and the first where neither is.
pub open spec fn spec_pick_library(arch: Arch, first_present: bool, second_present: bool) -> DriverLibrary {
    if !first_present && second_present {
        spec_library_order(arch).1
    } else {
        spec_library_order(arch).0
    }
}

/// What is done to the environment: Intel renders without the driver and
/// removes the variable, every other architecture points it at the
/// descriptor.
pub open spec fn spec_driver_env(arch: Arch) -> DriverEnv {
    match arch {
        Arch::Intel => DriverEnv::Clear,
        Arch::Other => DriverEnv::Point,
    }
}

/// The text of the descriptor that names a library.
pub open spec fn spec_descriptor(library: DriverLibrary) -> Seq<char> {
    "{\"ICD\":{\"api_version\":\"1.2\",\"library_path\":\""@ + library.spec_path()
        + "\"},\"file_format_version\":\"1.0.0\"}"@
}

/// The name of the variable that names the driver descriptor.
pub fn env_name() -> (name: &'static str)
    ensures
        name@ == spec_env_name(),
{
    "VK_ICD_FILENAMES"
}

/// The path of the descriptor file.
pub fn descriptor_path() -> (path: &'static str)
    ensures
        path@ == spec_descriptor_path(),
{
    "/tmp/moltenvk_icd_auto.json"
}

/// The two places in the order in which they are looked at.
pub fn library_order(arch: Arch) -> (order: (DriverLibrary, DriverLibrary))
    ensures
        order == spec_library_order(arch),
{
    match arch {
        Arch::Intel => (DriverLibrary::UsrLocal, DriverLibrary::Homebrew),
        Arch::Other => (DriverLibrary::Homebrew, DriverLibrary::UsrLocal),
    }
}

/// The library that the descriptor names, given which of the two places of
/// [`library_order`] hold one.
pub fn pick_library(arch: Arch, first_present: bool, second_present: bool) -> (library: DriverLibrary)
    ensures
        library == spec_pick_library(arch, first_present, second_present),
{
    let order = library_order(arch);
    if !first_present && second_present {
        order.1
    } else {
        order.0
    }
}

/// What is done to the environment before the engine starts.
pub fn driver_env(arch: Arch) -> (action: DriverEnv)
    ensures
        action == spec_driver_env(arch),
{
    match arch {
        Arch::Intel => DriverEnv::Clear,
        Arch::Other => DriverEnv::Point,
    }
}

/// The text of the descriptor that names a library: a JSON object with the
/// library's path and the API version.
pub fn descriptor(library: DriverLibrary) -> (text: String)
    ensures
        text@ == spec_descriptor(library),
{
    let mut text = "{\"ICD\":{\"api_version\":\"1.2\",\"library_path\":\"".to_owned();
    text.append(library.path());
    text.append("\"},\"file_format_version\":\"1.0.0\"}");
    text
}

/// A library that is there is never passed over for one that is not: the
/// pick is present whenever either place holds a library.
pub proof fn lemma_pick_prefers_present(arch: Arch, first_present: bool, second_present: bool)
    ensures
        first_present ==> spec_pick_library(arch, first_present, second_present) == spec_library_order(arch).0,
        !first_present && second_present ==> spec_pick_library(arch, first_present, second_present)
            == spec_library_order(arch).1,
        spec_library_order(arch).0 != spec_library_order(arch).1,
{
}

} // verus!
