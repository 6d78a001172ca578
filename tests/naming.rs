use libpng_src::{artifact_path, join_path, link_name, source_path, OsFamily};

#[test]
fn test_source_path() {
    let path = source_path("/opt/pkg");
    assert_eq!(path, "/opt/pkg/libpng");
}

#[test]
fn source_path_keeps_a_single_separator() {
    assert_eq!(source_path("/opt/pkg/"), "/opt/pkg/libpng");
    assert_eq!(source_path(""), "libpng");
}

#[test]
fn test_link_name() {
    let assert_combination = |file_name: &str, family: OsFamily, expectation: &str| {
        assert_eq!(link_name(file_name.to_string(), family), expectation.to_string())
    };

    assert_combination("libpng.lib", OsFamily::Windows, "libpng");
    assert_combination("libpng16.lib", OsFamily::Windows, "libpng16");
    assert_combination("libpng_static.lib", OsFamily::Windows, "libpng_static");
    assert_combination("libpng16_static.lib", OsFamily::Windows, "libpng16_static");

    for family in [OsFamily::Linux, OsFamily::MacOs] {
        assert_combination("libpng.a", family, "png");
        assert_combination("libpng.16.a", family, "png");
        assert_combination("libpng16.a", family, "png16");
    }
}

#[test]
fn link_name_edge_cases() {
    assert_eq!(link_name("png16.a".to_string(), OsFamily::Linux), "png16");
    assert_eq!(link_name("libpng16".to_string(), OsFamily::Linux), "png16");
    assert_eq!(link_name("".to_string(), OsFamily::Linux), "");
    assert_eq!(link_name(".a".to_string(), OsFamily::Windows), "");
    assert_eq!(link_name("li.a".to_string(), OsFamily::MacOs), "li");
    assert_eq!(link_name("lib.a".to_string(), OsFamily::Linux), "");
}

#[test]
fn artifact_path_by_host() {
    assert_eq!(artifact_path("/w", OsFamily::Linux), "/w/libpng16.a");
    assert_eq!(artifact_path("/w", OsFamily::MacOs), "/w/libpng16.a");
    assert_eq!(artifact_path("C:/w", OsFamily::Windows), "C:/w/Release/libpng16_static.lib");
}

#[test]
fn join_path_cases() {
    assert_eq!(join_path("a", "b"), "a/b");
    assert_eq!(join_path("a/", "b"), "a/b");
    assert_eq!(join_path("", "b"), "b");
}
