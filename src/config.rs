use vstd::prelude::*;

use crate::error::{BuildError, ErrorView};
use crate::platform::{
    allowed_targets_for_host, arch_kind, arch_of, is_apple, os_family, os_family_of, permitted,
    target_named, Host, OsFamily, Target,
};
use crate::text::{concat_text, join_path, path_join};

verus! {

/// The characters of each string of `v`.
pub open spec fn texts(v: Seq<String>) -> Seq<Seq<char>> {
    v.map_values(|s: String| s@)
}

/// Flags passed on every host: no shared library, no test suite.
pub open spec fn common_flags() -> Seq<Seq<char>> {
    seq!["-DPNG_SHARED=OFF"@, "-DPNG_TESTS=OFF"@]
}

/// Flags for an Apple target built on macOS (see `is_apple`). The framework
/// bundle is never wanted by a static-library consumer.
pub open spec fn apple_flags(t: Target) -> Seq<Seq<char>> {
    let specific = match t {
        Target::MacOsAarch64 => seq!["-DCMAKE_OSX_ARCHITECTURES=arm64"@],
        Target::MacOsX86_64 => seq!["-DCMAKE_OSX_ARCHITECTURES=x86_64"@],
        Target::IosAarch64 => seq!["-DCMAKE_SYSTEM_NAME=iOS"@, "-DCMAKE_OSX_ARCHITECTURES=arm64"@],
        Target::IosSimAarch64 => seq![
            "-DCMAKE_SYSTEM_NAME=iOS"@,
            "-DCMAKE_OSX_ARCHITECTURES=arm64"@,
            "-DCMAKE_OSX_SYSROOT=iphonesimulator"@,
        ],
        Target::IosSimX86_64 => seq![
            "-DCMAKE_SYSTEM_NAME=iOS"@,
            "-DCMAKE_OSX_ARCHITECTURES=x86_64"@,
            "-DCMAKE_OSX_SYSROOT=iphonesimulator"@,
        ],
        _ => seq![],
    };
    specific.push("-DPNG_FRAMEWORK=OFF"@)
}

/// The bundled zlib header directory inside the package directory.
pub open spec fn zlib_include_dir(package_dir: Seq<char>) -> Seq<char> {
    path_join(package_dir, "win-zlib-include"@)
}

/// The bundled zlib import library.
pub open spec fn zlib_library(package_dir: Seq<char>) -> Seq<char> {
    path_join(zlib_include_dir(package_dir), "zlib.lib"@)
}

/// Flags on a Windows host, which point the build at the bundled zlib.
pub open spec fn windows_flags(package_dir: Seq<char>) -> Seq<Seq<char>> {
    seq![
        "-DZLIB_INCLUDE_DIR="@ + zlib_include_dir(package_dir),
        "-DZLIB_LIBRARY="@ + zlib_library(package_dir),
    ]
}

pub open spec fn host_flags(family: OsFamily, t: Target, package_dir: Seq<char>) -> Seq<Seq<char>> {
    match family {
        OsFamily::MacOs => apple_flags(t),
        OsFamily::Windows => windows_flags(package_dir),
        OsFamily::Linux => seq![],
    }
}

/// Whether flags can be given for `t` on a host of `family`: a macOS host
/// knows flags for the Apple targets only.
pub open spec fn configurable(family: OsFamily, t: Target) -> bool {
    family == OsFamily::MacOs ==> is_apple(t)
}

/// The configuration arguments for `t` on a host of `family`, where
/// `configurable` holds: the common flags, then those of the host.
pub open spec fn toolchain_args(family: OsFamily, t: Target, package_dir: Seq<char>) -> Seq<
    Seq<char>,
> {
    common_flags() + host_flags(family, t, package_dir)
}

pub(crate) fn push_text(v: &mut Vec<String>, s: &str)
    ensures
        texts(final(v)@) == texts(old(v)@).push(s@),
{
    v.push(String::from_str(s));
    assert(texts(v@) =~= texts(old(v)@).push(s@));
}

fn append_texts(v: &mut Vec<String>, more: Vec<String>)
    ensures
        texts(final(v)@) == texts(old(v)@) + texts(more@),
{
    let mut more = more;
    let ghost before = v@;
    let ghost added = more@;
    v.append(&mut more);
    assert(texts(v@) =~= texts(before) + texts(added));
}

pub fn common_cmake_options() -> (r: Vec<String>)
    ensures
        texts(r@) == common_flags(),
{
    let mut r: Vec<String> = Vec::new();
    push_text(&mut r, "-DPNG_SHARED=OFF");
    push_text(&mut r, "-DPNG_TESTS=OFF");
    assert(texts(r@) =~= common_flags());
    r
}

/// The macOS host's flags for `t`; none for a target that is not Apple's.
pub fn macos_specific_cmake_options(t: Target) -> (r: Option<Vec<String>>)
    ensures
        match r {
            Some(v) => is_apple(t) && texts(v@) == apple_flags(t),
            None => !is_apple(t),
        },
{
    let mut r: Vec<String> = Vec::new();
    match t {
        Target::MacOsAarch64 => {
            push_text(&mut r, "-DCMAKE_OSX_ARCHITECTURES=arm64");
        },
        Target::MacOsX86_64 => {
            push_text(&mut r, "-DCMAKE_OSX_ARCHITECTURES=x86_64");
        },
        Target::IosAarch64 => {
            push_text(&mut r, "-DCMAKE_SYSTEM_NAME=iOS");
            push_text(&mut r, "-DCMAKE_OSX_ARCHITECTURES=arm64");
        },
        Target::IosSimAarch64 => {
            push_text(&mut r, "-DCMAKE_SYSTEM_NAME=iOS");
            push_text(&mut r, "-DCMAKE_OSX_ARCHITECTURES=arm64");
            push_text(&mut r, "-DCMAKE_OSX_SYSROOT=iphonesimulator");
        },
        Target::IosSimX86_64 => {
            push_text(&mut r, "-DCMAKE_SYSTEM_NAME=iOS");
            push_text(&mut r, "-DCMAKE_OSX_ARCHITECTURES=x86_64");
            push_text(&mut r, "-DCMAKE_OSX_SYSROOT=iphonesimulator");
        },
        _ => {
            return None;
        },
    }
    push_text(&mut r, "-DPNG_FRAMEWORK=OFF");
    assert(texts(r@) =~= apple_flags(t));
    Some(r)
}

pub fn windows_specific_cmake_options(package_dir: &str) -> (r: Vec<String>)
    ensures
        texts(r@) == windows_flags(package_dir@),
{
    let include_dir = join_path(package_dir, "win-zlib-include");
    let library = join_path(include_dir.as_str(), "zlib.lib");
    let mut r: Vec<String> = Vec::new();
    r.push(concat_text("-DZLIB_INCLUDE_DIR=", include_dir.as_str()));
    r.push(concat_text("-DZLIB_LIBRARY=", library.as_str()));
    assert(texts(r@) =~= windows_flags(package_dir@));
    r
}

/// The configuration arguments for `t` on a host of `family`; none where a
/// macOS host is asked for a target that is not Apple's.
pub fn cmake_options(family: OsFamily, t: Target, package_dir: &str) -> (r: Option<Vec<String>>)
    ensures
        match r {
            Some(v) => configurable(family, t) && texts(v@) == toolchain_args(
                family,
                t,
                package_dir@,
            ),
            None => !configurable(family, t),
        },
{
    let mut options = common_cmake_options();
    let specific = match family {
        OsFamily::MacOs => match macos_specific_cmake_options(t) {
            Some(v) => v,
            None => {
                return None;
            },
        },
        OsFamily::Windows => windows_specific_cmake_options(package_dir),
        OsFamily::Linux => Vec::new(),
    };
    proof {
        if family == OsFamily::Linux {
            assert(texts(specific@) =~= seq![]);
        }
    }
    append_texts(&mut options, specific);
    Some(options)
}

/// Why `target` cannot be built on a host with these names, if it cannot.
pub open spec fn refusal(target: Seq<char>, os: Seq<char>, arch: Seq<char>) -> Option<ErrorView> {
    if os_family(os) is None {
        Some(ErrorView::UnsupportedHost(os))
    } else if !permitted(target, os_family(os)->0, arch_kind(arch)) {
        Some(ErrorView::UnsupportedTarget(target, os, arch))
    } else {
        None
    }
}

/// The configuration arguments for `target` on a host whose operating system
/// is named `os`, where `refusal` has nothing to say.
pub open spec fn host_args(target: Seq<char>, os: Seq<char>, package_dir: Seq<char>) -> Seq<
    Seq<char>,
> {
    toolchain_args(os_family(os)->0, target_named(target)->0, package_dir)
}

fn contains_target(list: &Vec<Target>, t: Target) -> (r: bool)
    ensures
        r == list@.contains(t),
{
    let mut i: usize = 0;
    while i < list.len()
        invariant
            i <= list@.len(),
            forall|j: int| 0 <= j < i ==> list@[j] != t,
        decreases list@.len() - i,
    {
        if list[i] == t {
            return true;
        }
        i = i + 1;
    }
    false
}

/// The host's family and the configuration arguments for building `target`
/// there, or why it cannot be built.
pub(crate) fn resolve_for_host(target: &str, host: &Host, package_dir: &str) -> (r: Result<
    (OsFamily, Vec<String>),
    BuildError,
>)
    ensures
        match r {
            Ok((family, args)) => {
                &&& refusal(target@, host.os@, host.arch@) is None
                &&& family == os_family(host.os@)->0
                &&& texts(args@) == host_args(target@, host.os@, package_dir@)
            },
            Err(e) => refusal(target@, host.os@, host.arch@) == Some(e@),
        },
{
    let family = match os_family_of(host.os.as_str()) {
        Some(f) => f,
        None => {
            return Err(BuildError::UnsupportedHost { os: host.os.clone() });
        },
    };
    let arch = arch_of(host.arch.as_str());
    let allowed = allowed_targets_for_host(family, arch);
    let refused = BuildError::UnsupportedTarget {
        target: String::from_str(target),
        os: host.os.clone(),
        arch: host.arch.clone(),
    };
    let t = match Target::from_triple(target) {
        Some(t) => t,
        None => {
            return Err(refused);
        },
    };
    if !contains_target(&allowed, t) {
        return Err(refused);
    }
    proof {
        // Every target a macOS host allows is an Apple target.
        if family == OsFamily::MacOs {
            let i = choose|i: int| 0 <= i < allowed@.len() && allowed@[i] == t;
            assert(is_apple(allowed@[i]));
        }
    }
    match cmake_options(family, t, package_dir) {
        Some(args) => Ok((family, args)),
        None => Err(refused),
    }
}

/// The configuration arguments for building `target` on `host`, with the
/// package directory that holds the bundled sources.
///
/// A host whose operating system is none of macOS, Linux and Windows is
/// refused first; then a target outside the host's allow-list.
pub fn resolve_configuration(target: &str, host: &Host, package_dir: &str) -> (r: Result<
    Vec<String>,
    BuildError,
>)
    ensures
        match r {
            Ok(args) => refusal(target@, host.os@, host.arch@) is None && texts(args@)
                == host_args(target@, host.os@, package_dir@),
            Err(e) => refusal(target@, host.os@, host.arch@) == Some(e@),
        },
{
    let (_, args) = resolve_for_host(target, host, package_dir)?;
    Ok(args)
}

} // verus!
