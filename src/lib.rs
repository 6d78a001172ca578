//! Build-time support for compiling the vendored libpng sources into a
//! static library: which targets a host can build, the configuration the
//! build tool is given, and the steps of a build and a bundle, with the
//! decisions between them. Performing the steps is left to the caller.
use vstd::prelude::*;

mod config;
mod error;
pub mod laws;
mod naming;
mod plan;
mod platform;
mod session;
mod text;

pub use config::{
    cmake_options, common_cmake_options, macos_specific_cmake_options, resolve_configuration,
    windows_specific_cmake_options,
};
pub use error::BuildError;
pub use naming::{artifact_name, artifact_path, link_name, source_path};
pub use plan::{plan_bundle, plan_compile, Artifacts};
pub use platform::{allowed_targets_for_host, arch_of, os_family_of, Arch, Host, OsFamily, Target};
pub use session::{Build, Outcome, Status, Step};
pub use text::join_path;

verus! {

/// Version of the vendored libpng sources.
pub const LIBPNG_VERSION: &'static str = "1.6.43";

} // verus!
