use vstd::prelude::*;

use crate::text::same_text;

verus! {

/// The operating-system families that can host a build.
#[derive(Clone, Copy, Debug, PartialEq, Eq, Structural)]
pub enum OsFamily {
    MacOs,
    Linux,
    Windows,
}

/// The processor architectures that the allow-list knows.
#[derive(Clone, Copy, Debug, PartialEq, Eq, Structural)]
pub enum Arch {
    X86_64,
    Aarch64,
}

/// The platforms the library can be built for.
#[derive(Clone, Copy, Debug, PartialEq, Eq, Structural)]
pub enum Target {
    /// `aarch64-apple-darwin`
    MacOsAarch64,
    /// `x86_64-apple-darwin`
    MacOsX86_64,
    /// `aarch64-apple-ios`
    IosAarch64,
    /// `aarch64-apple-ios-sim`
    IosSimAarch64,
    /// `x86_64-apple-ios` (a simulator target)
    IosSimX86_64,
    /// `x86_64-unknown-linux-gnu`
    LinuxX86_64,
    /// `aarch64-unknown-linux-gnu`
    LinuxAarch64,
    /// `x86_64-pc-windows-msvc`
    WindowsX86_64,
    /// `aarch64-pc-windows-msvc`
    WindowsAarch64,
}

/// The machine that performs the build, by the names its toolchain reports
/// (`"macos"`, `"linux"`, `"x86_64"`, ...).
pub struct Host {
    pub os: String,
    pub arch: String,
}

pub open spec fn os_family(os: Seq<char>) -> Option<OsFamily> {
    if os == "macos"@ {
        Some(OsFamily::MacOs)
    } else if os == "linux"@ {
        Some(OsFamily::Linux)
    } else if os == "windows"@ {
        Some(OsFamily::Windows)
    } else {
        None
    }
}

pub open spec fn arch_kind(arch: Seq<char>) -> Option<Arch> {
    if arch == "x86_64"@ {
        Some(Arch::X86_64)
    } else if arch == "aarch64"@ {
        Some(Arch::Aarch64)
    } else {
        None
    }
}

pub open spec fn target_named(t: Seq<char>) -> Option<Target> {
    if t == "aarch64-apple-darwin"@ {
        Some(Target::MacOsAarch64)
    } else if t == "x86_64-apple-darwin"@ {
        Some(Target::MacOsX86_64)
    } else if t == "aarch64-apple-ios"@ {
        Some(Target::IosAarch64)
    } else if t == "aarch64-apple-ios-sim"@ {
        Some(Target::IosSimAarch64)
    } else if t == "x86_64-apple-ios"@ {
        Some(Target::IosSimX86_64)
    } else if t == "x86_64-unknown-linux-gnu"@ {
        Some(Target::LinuxX86_64)
    } else if t == "aarch64-unknown-linux-gnu"@ {
        Some(Target::LinuxAarch64)
    } else if t == "x86_64-pc-windows-msvc"@ {
        Some(Target::WindowsX86_64)
    } else if t == "aarch64-pc-windows-msvc"@ {
        Some(Target::WindowsAarch64)
    } else {
        None
    }
}

/// The targets buildable on a host: every Apple target from macOS (whatever
/// its processor), otherwise only the host's own platform.
pub open spec fn allowed_list(family: OsFamily, arch: Option<Arch>) -> Seq<Target> {
    match (family, arch) {
        (OsFamily::MacOs, _) => seq![
            Target::MacOsAarch64,
            Target::MacOsX86_64,
            Target::IosAarch64,
            Target::IosSimAarch64,
            Target::IosSimX86_64,
        ],
        (OsFamily::Linux, Some(Arch::X86_64)) => seq![Target::LinuxX86_64],
        (OsFamily::Linux, Some(Arch::Aarch64)) => seq![Target::LinuxAarch64],
        (OsFamily::Windows, Some(Arch::X86_64)) => seq![Target::WindowsX86_64],
        (OsFamily::Windows, Some(Arch::Aarch64)) => seq![Target::WindowsAarch64],
        _ => seq![],
    }
}

/// Whether the target named `t` may be built on a host of `family` and `arch`.
pub open spec fn permitted(t: Seq<char>, family: OsFamily, arch: Option<Arch>) -> bool {
    &&& target_named(t) is Some
    &&& allowed_list(family, arch).contains(target_named(t)->0)
}

pub open spec fn is_apple_mobile(t: Target) -> bool {
    t == Target::IosAarch64 || t == Target::IosSimAarch64 || t == Target::IosSimX86_64
}

/// The Apple targets: macOS itself and iOS, devices and simulators.
pub open spec fn is_apple(t: Target) -> bool {
    t == Target::MacOsAarch64 || t == Target::MacOsX86_64 || is_apple_mobile(t)
}

/// Reads a host operating-system name.
pub fn os_family_of(os: &str) -> (r: Option<OsFamily>)
    ensures
        r == os_family(os@),
{
    if same_text(os, "macos") {
        Some(OsFamily::MacOs)
    } else if same_text(os, "linux") {
        Some(OsFamily::Linux)
    } else if same_text(os, "windows") {
        Some(OsFamily::Windows)
    } else {
        None
    }
}

/// Reads a host architecture name.
pub fn arch_of(arch: &str) -> (r: Option<Arch>)
    ensures
        r == arch_kind(arch@),
{
    if same_text(arch, "x86_64") {
        Some(Arch::X86_64)
    } else if same_text(arch, "aarch64") {
        Some(Arch::Aarch64)
    } else {
        None
    }
}

impl Target {
    /// The target that a platform identifier names, if any.
    pub fn from_triple(t: &str) -> (r: Option<Target>)
        ensures
            r == target_named(t@),
    {
        if same_text(t, "aarch64-apple-darwin") {
            Some(Target::MacOsAarch64)
        } else if same_text(t, "x86_64-apple-darwin") {
            Some(Target::MacOsX86_64)
        } else if same_text(t, "aarch64-apple-ios") {
            Some(Target::IosAarch64)
        } else if same_text(t, "aarch64-apple-ios-sim") {
            Some(Target::IosSimAarch64)
        } else if same_text(t, "x86_64-apple-ios") {
            Some(Target::IosSimX86_64)
        } else if same_text(t, "x86_64-unknown-linux-gnu") {
            Some(Target::LinuxX86_64)
        } else if same_text(t, "aarch64-unknown-linux-gnu") {
            Some(Target::LinuxAarch64)
        } else if same_text(t, "x86_64-pc-windows-msvc") {
            Some(Target::WindowsX86_64)
        } else if same_text(t, "aarch64-pc-windows-msvc") {
            Some(Target::WindowsAarch64)
        } else {
            None
        }
    }
}

/// The targets that a host can build, in a fixed order.
pub fn allowed_targets_for_host(family: OsFamily, arch: Option<Arch>) -> (r: Vec<Target>)
    ensures
        r@ == allowed_list(family, arch),
{
    let r = match (family, arch) {
        (OsFamily::MacOs, _) => vec![
            Target::MacOsAarch64,
            Target::MacOsX86_64,
            Target::IosAarch64,
            Target::IosSimAarch64,
            Target::IosSimX86_64,
        ],
        (OsFamily::Linux, Some(Arch::X86_64)) => vec![Target::LinuxX86_64],
        (OsFamily::Linux, Some(Arch::Aarch64)) => vec![Target::LinuxAarch64],
        (OsFamily::Windows, Some(Arch::X86_64)) => vec![Target::WindowsX86_64],
        (OsFamily::Windows, Some(Arch::Aarch64)) => vec![Target::WindowsAarch64],
        _ => vec![],
    };
    assert(r@ =~= allowed_list(family, arch));
    r
}

} // verus!
