//! The platforms the wallpaper can be set on.

use vstd::prelude::*;
use crate::text::same_text;

verus! {

/// The platform the program runs on.
#[derive(Debug, Clone, Copy, PartialEq, Eq, Structural)]
pub enum OperatingSystem {
    Windows,
    MacIntel,
    MacArm,
    Linux,
    Unknown,
}

/// The platform named by a target operating system (`"windows"`,
/// `"macos"`, `"linux"`, ...) and a target architecture (`"aarch64"`,
/// `"x86_64"`, ...), as Rust's target names spell them.
pub open spec fn operating_system_of(os: Seq<char>, arch: Seq<char>) -> OperatingSystem {
    if os == "windows"@ {
        OperatingSystem::Windows
    } else if os == "macos"@ {
        if arch == "aarch64"@ {
            OperatingSystem::MacArm
        } else if arch == "x86_64"@ {
            OperatingSystem::MacIntel
        } else {
            OperatingSystem::Unknown
        }
    } else if os == "linux"@ {
        OperatingSystem::Linux
    } else {
        OperatingSystem::Unknown
    }
}

/// Classifies the target operating system `os` and architecture `arch`.
/// A Mac is told apart by its architecture; any other pair is `Unknown`.
pub fn get_operating_system(os: &str, arch: &str) -> (r: OperatingSystem)
    ensures
        r == operating_system_of(os@, arch@),
{
    if same_text(os, "windows") {
        OperatingSystem::Windows
    } else if same_text(os, "macos") {
        if same_text(arch, "aarch64") {
            OperatingSystem::MacArm
        } else if same_text(arch, "x86_64") {
            OperatingSystem::MacIntel
        } else {
            OperatingSystem::Unknown
        }
    } else if same_text(os, "linux") {
        OperatingSystem::Linux
    } else {
        OperatingSystem::Unknown
    }
}

} // verus!
