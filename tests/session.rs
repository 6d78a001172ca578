use libpng_src::{plan_bundle, plan_compile, Build, BuildError, Host, Outcome, Status, Step};

fn linux() -> Host {
    Host { os: "linux".to_string(), arch: "x86_64".to_string() }
}

fn compile_build() -> Build<String> {
    plan_compile("x86_64-unknown-linux-gnu", &linux(), "/pkg", "/work").unwrap()
}

fn ok_exit() -> Outcome {
    Outcome::Exited { code: Some(0), stderr: String::new() }
}

#[test]
fn build_tool_failure_is_a_tool_failure() {
    let mut b = compile_build();
    assert!(!b.record(Outcome::Done));
    assert!(!b.record(ok_exit()));
    assert!(!b.record(Outcome::Exited { code: Some(2), stderr: "boom".to_string() }));
    match b.status() {
        Status::Failed(BuildError::ToolFailure { command, code, stderr }) => {
            assert_eq!(command, "cmake");
            assert_eq!(*code, 2);
            assert_eq!(stderr, "boom");
        }
        _ => panic!("expected a tool failure"),
    }
    assert!(b.next_step().is_none());
    match b.finish() {
        Err(BuildError::ToolFailure { command, .. }) => assert_eq!(command, "cmake"),
        _ => panic!("a failed build handed out its artifact path"),
    }
}

#[test]
fn tool_killed_without_code_reports_sentinel() {
    let mut b = compile_build();
    b.record(Outcome::Done);
    b.record(Outcome::Exited { code: None, stderr: "killed".to_string() });
    match b.status() {
        Status::Failed(BuildError::ToolFailure { code, stderr, .. }) => {
            assert_eq!(*code, -1);
            assert_eq!(stderr, "killed");
        }
        _ => panic!("expected a tool failure"),
    }
}

#[test]
fn tool_that_cannot_start_is_a_tool_failure() {
    let mut b = compile_build();
    b.record(Outcome::Done);
    b.record(Outcome::IoError { message: "not found".to_string() });
    match b.status() {
        Status::Failed(BuildError::ToolFailure { command, code, stderr }) => {
            assert_eq!(command, "cmake");
            assert_eq!(*code, -1);
            assert_eq!(stderr, "not found");
        }
        _ => panic!("expected a tool failure"),
    }
}

#[test]
fn missing_artifact_is_reported() {
    let mut b = compile_build();
    b.record(Outcome::Done);
    b.record(ok_exit());
    b.record(ok_exit());
    assert!(matches!(b.next_step(), Some(Step::ExpectFile { .. })));
    b.record(Outcome::Missing);
    match b.status() {
        Status::Failed(BuildError::ArtifactNotFound { path }) => assert_eq!(path, "/work/libpng16.a"),
        _ => panic!("expected artifact-not-found"),
    }
    assert!(matches!(b.finish(), Err(BuildError::ArtifactNotFound { .. })));
}

#[test]
fn directory_failure_is_a_filesystem_error() {
    let mut b = compile_build();
    b.record(Outcome::IoError { message: "denied".to_string() });
    match b.status() {
        Status::Failed(BuildError::FilesystemError { path, message }) => {
            assert_eq!(path, "/work");
            assert_eq!(message, "denied");
        }
        _ => panic!("expected a filesystem error"),
    }
}

#[test]
fn missing_header_fails_the_bundle() {
    let mut b = plan_bundle("x86_64-unknown-linux-gnu", &linux(), "/pkg", "/work").unwrap();
    for _ in 0..6 {
        let outcome = match b.next_step() {
            Some(Step::Run { .. }) => ok_exit(),
            _ => Outcome::Done,
        };
        b.record(outcome);
    }
    assert!(matches!(b.next_step(), Some(Step::CopyFile { .. })));
    b.record(Outcome::IoError { message: "no such file".to_string() });
    match b.status() {
        Status::Failed(BuildError::FilesystemError { path, message }) => {
            assert_eq!(path, "/pkg/libpng/png.h");
            assert_eq!(message, "no such file");
        }
        _ => panic!("expected a filesystem error"),
    }
}

#[test]
fn failed_cleanup_is_only_a_warning() {
    let mut b = plan_bundle("x86_64-unknown-linux-gnu", &linux(), "/pkg", "/work").unwrap();
    let mut warned = false;
    while let Some(step) = b.next_step() {
        let outcome = match step {
            Step::Run { .. } => ok_exit(),
            Step::Cleanup { .. } => Outcome::IoError { message: "busy".to_string() },
            _ => Outcome::Done,
        };
        warned = b.record(outcome);
    }
    assert!(warned);
    assert!(matches!(b.status(), Status::Succeeded));
    assert_eq!(b.finish().unwrap().link_name, "png16");
}

#[test]
fn empty_build_has_succeeded() {
    let b = Build::new(Vec::new(), 7u8);
    assert!(matches!(b.status(), Status::Succeeded));
    assert!(b.next_step().is_none());
    assert_eq!(b.finish().unwrap(), 7);
}
