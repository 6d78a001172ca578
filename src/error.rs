use vstd::prelude::*;

verus! {

/// Why a build could not be planned or did not complete.
#[derive(Debug)]
pub enum BuildError {
    /// The host operating system is none of macOS, Linux and Windows.
    UnsupportedHost { os: String },
    /// The requested target cannot be built on this host.
    UnsupportedTarget { target: String, os: String, arch: String },
    /// An external tool ended without success; `code` is -1 where no exit
    /// status was available.
    ToolFailure { command: String, code: i32, stderr: String },
    /// The build tools succeeded but the library is not where it should be.
    ArtifactNotFound { path: String },
    /// A directory could not be created or removed, or a file not copied.
    FilesystemError { path: String, message: String },
}

/// The mathematical model of a `BuildError`.
pub enum ErrorView {
    UnsupportedHost(Seq<char>),
    UnsupportedTarget(Seq<char>, Seq<char>, Seq<char>),
    ToolFailure(Seq<char>, i32, Seq<char>),
    ArtifactNotFound(Seq<char>),
    FilesystemError(Seq<char>, Seq<char>),
}

impl View for BuildError {
    type V = ErrorView;

    open spec fn view(&self) -> ErrorView {
        match self {
            BuildError::UnsupportedHost { os } => ErrorView::UnsupportedHost(os@),
            BuildError::UnsupportedTarget { target, os, arch } => ErrorView::UnsupportedTarget(
                target@,
                os@,
                arch@,
            ),
            BuildError::ToolFailure { command, code, stderr } => ErrorView::ToolFailure(
                command@,
                *code,
                stderr@,
            ),
            BuildError::ArtifactNotFound { path } => ErrorView::ArtifactNotFound(path@),
            BuildError::FilesystemError { path, message } => ErrorView::FilesystemError(
                path@,
                message@,
            ),
        }
    }
}

} // verus!
