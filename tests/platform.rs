use libpng_src::{
    allowed_targets_for_host, arch_of, cmake_options, macos_specific_cmake_options,
    os_family_of, resolve_configuration, Arch, BuildError, Host, OsFamily, Target,
};

fn host(os: &str, arch: &str) -> Host {
    Host { os: os.to_string(), arch: arch.to_string() }
}

fn args(target: &str, h: &Host) -> Vec<String> {
    resolve_configuration(target, h, "/pkg").unwrap()
}

#[test]
fn host_names_are_read() {
    assert_eq!(os_family_of("macos"), Some(OsFamily::MacOs));
    assert_eq!(os_family_of("linux"), Some(OsFamily::Linux));
    assert_eq!(os_family_of("windows"), Some(OsFamily::Windows));
    assert_eq!(os_family_of("freebsd"), None);
    assert_eq!(os_family_of("Linux"), None);
    assert_eq!(arch_of("x86_64"), Some(Arch::X86_64));
    assert_eq!(arch_of("aarch64"), Some(Arch::Aarch64));
    assert_eq!(arch_of("riscv64"), None);
}

#[test]
fn triples_are_read() {
    assert_eq!(Target::from_triple("aarch64-apple-ios-sim"), Some(Target::IosSimAarch64));
    assert_eq!(Target::from_triple("aarch64-apple-ios"), Some(Target::IosAarch64));
    assert_eq!(Target::from_triple("x86_64-pc-windows-msvc"), Some(Target::WindowsX86_64));
    assert_eq!(Target::from_triple("x86_64-pc-windows-msvs"), None);
    assert_eq!(Target::from_triple(""), None);
}

#[test]
fn allow_lists() {
    assert_eq!(allowed_targets_for_host(OsFamily::MacOs, None).len(), 5);
    assert_eq!(
        allowed_targets_for_host(OsFamily::Linux, Some(Arch::Aarch64)),
        vec![Target::LinuxAarch64]
    );
    assert_eq!(
        allowed_targets_for_host(OsFamily::Windows, Some(Arch::X86_64)),
        vec![Target::WindowsX86_64]
    );
    assert!(allowed_targets_for_host(OsFamily::Linux, None).is_empty());
}

#[test]
fn linux_configuration_is_the_common_flags() {
    let h = host("linux", "x86_64");
    assert_eq!(args("x86_64-unknown-linux-gnu", &h), vec!["-DPNG_SHARED=OFF", "-DPNG_TESTS=OFF"]);
    let h = host("linux", "aarch64");
    assert_eq!(args("aarch64-unknown-linux-gnu", &h), vec!["-DPNG_SHARED=OFF", "-DPNG_TESTS=OFF"]);
}

#[test]
fn apple_configurations() {
    let h = host("macos", "aarch64");
    assert_eq!(
        args("aarch64-apple-darwin", &h),
        vec!["-DPNG_SHARED=OFF", "-DPNG_TESTS=OFF", "-DCMAKE_OSX_ARCHITECTURES=arm64", "-DPNG_FRAMEWORK=OFF"]
    );
    assert_eq!(
        args("x86_64-apple-darwin", &h),
        vec!["-DPNG_SHARED=OFF", "-DPNG_TESTS=OFF", "-DCMAKE_OSX_ARCHITECTURES=x86_64", "-DPNG_FRAMEWORK=OFF"]
    );
    assert_eq!(
        args("aarch64-apple-ios", &h),
        vec![
            "-DPNG_SHARED=OFF",
            "-DPNG_TESTS=OFF",
            "-DCMAKE_SYSTEM_NAME=iOS",
            "-DCMAKE_OSX_ARCHITECTURES=arm64",
            "-DPNG_FRAMEWORK=OFF"
        ]
    );
    assert_eq!(
        args("aarch64-apple-ios-sim", &h),
        vec![
            "-DPNG_SHARED=OFF",
            "-DPNG_TESTS=OFF",
            "-DCMAKE_SYSTEM_NAME=iOS",
            "-DCMAKE_OSX_ARCHITECTURES=arm64",
            "-DCMAKE_OSX_SYSROOT=iphonesimulator",
            "-DPNG_FRAMEWORK=OFF"
        ]
    );
    let intel = host("macos", "x86_64");
    assert_eq!(
        args("x86_64-apple-ios", &intel),
        vec![
            "-DPNG_SHARED=OFF",
            "-DPNG_TESTS=OFF",
            "-DCMAKE_SYSTEM_NAME=iOS",
            "-DCMAKE_OSX_ARCHITECTURES=x86_64",
            "-DCMAKE_OSX_SYSROOT=iphonesimulator",
            "-DPNG_FRAMEWORK=OFF"
        ]
    );
}

#[test]
fn windows_configuration_points_at_bundled_zlib() {
    let h = host("windows", "x86_64");
    assert_eq!(
        resolve_configuration("x86_64-pc-windows-msvc", &h, "C:/pkg").unwrap(),
        vec![
            "-DPNG_SHARED=OFF",
            "-DPNG_TESTS=OFF",
            "-DZLIB_INCLUDE_DIR=C:/pkg/win-zlib-include",
            "-DZLIB_LIBRARY=C:/pkg/win-zlib-include/zlib.lib"
        ]
    );
}

#[test]
fn unsupported_host_is_refused() {
    let h = host("freebsd", "x86_64");
    match resolve_configuration("x86_64-unknown-linux-gnu", &h, "/pkg") {
        Err(BuildError::UnsupportedHost { os }) => assert_eq!(os, "freebsd"),
        other => panic!("unexpected {:?}", other),
    }
}

#[test]
fn unsupported_targets_are_refused() {
    let cases = [
        ("linux", "x86_64", "aarch64-unknown-linux-gnu"),
        ("linux", "riscv64", "x86_64-unknown-linux-gnu"),
        ("macos", "aarch64", "x86_64-unknown-linux-gnu"),
        ("windows", "aarch64", "x86_64-pc-windows-msvc"),
        ("linux", "x86_64", "no-such-target"),
        ("macos", "x86_64", ""),
    ];
    for (os, arch, target) in cases {
        match resolve_configuration(target, &host(os, arch), "/pkg") {
            Err(BuildError::UnsupportedTarget { target: t, os: o, arch: a }) => {
                assert_eq!(t, target);
                assert_eq!(o, os);
                assert_eq!(a, arch);
            }
            other => panic!("unexpected {:?}", other),
        }
    }
}

#[test]
fn macos_flags_refuse_other_targets() {
    for t in [
        Target::LinuxX86_64,
        Target::LinuxAarch64,
        Target::WindowsX86_64,
        Target::WindowsAarch64,
    ] {
        assert_eq!(macos_specific_cmake_options(t), None);
        assert_eq!(cmake_options(OsFamily::MacOs, t, "/pkg"), None);
    }
    assert_eq!(
        macos_specific_cmake_options(Target::MacOsX86_64).unwrap(),
        vec!["-DCMAKE_OSX_ARCHITECTURES=x86_64", "-DPNG_FRAMEWORK=OFF"]
    );
    assert_eq!(
        cmake_options(OsFamily::Linux, Target::LinuxX86_64, "/pkg").unwrap(),
        vec!["-DPNG_SHARED=OFF", "-DPNG_TESTS=OFF"]
    );
}
