use vstd::prelude::*;

use crate::config::{host_args, push_text, refusal, resolve_for_host, texts};
use crate::error::BuildError;
use crate::naming::{
    artifact_file_name, artifact_location, artifact_name, artifact_path, link_name, link_name_of,
    source_dir, source_path,
};
use crate::platform::{os_family, Host, OsFamily};
use crate::session::{Build, Step, StepView};
use crate::text::{join_path, path_join};

verus! {

/// What a bundle build leaves for its consumers: the bundle root, its header
/// and library directories, and the library's name for the linker.
pub struct Artifacts {
    pub root_dir: String,
    pub include_dir: String,
    pub lib_dir: String,
    pub link_name: String,
}

pub struct ArtifactsView {
    pub root_dir: Seq<char>,
    pub include_dir: Seq<char>,
    pub lib_dir: Seq<char>,
    pub link_name: Seq<char>,
}

impl View for Artifacts {
    type V = ArtifactsView;

    open spec fn view(&self) -> ArtifactsView {
        ArtifactsView {
            root_dir: self.root_dir@,
            include_dir: self.include_dir@,
            lib_dir: self.lib_dir@,
            link_name: self.link_name@,
        }
    }
}

/// The arguments of the build step: build what was generated, in Release.
pub open spec fn build_tool_args() -> Seq<Seq<char>> {
    seq!["--build"@, "."@, "--config"@, "Release"@]
}

/// The steps that compile the library in `working_dir`: start from an empty
/// directory, generate the project, build it, and check for the library.
pub open spec fn compile_plan(
    args: Seq<Seq<char>>,
    family: OsFamily,
    package_dir: Seq<char>,
    working_dir: Seq<char>,
) -> Seq<StepView> {
    seq![
        StepView::ResetDir(working_dir),
        StepView::Run("cmake"@, args.push(source_dir(package_dir)), working_dir),
        StepView::Run("cmake"@, build_tool_args(), working_dir),
        StepView::ExpectFile(artifact_location(working_dir, family)),
    ]
}

/// The scratch directory of a bundle build.
pub open spec fn build_dir(working_dir: Seq<char>) -> Seq<char> {
    path_join(working_dir, "build"@)
}

pub open spec fn bundle_root(working_dir: Seq<char>) -> Seq<char> {
    path_join(working_dir, "libpng"@)
}

pub open spec fn bundle_include(working_dir: Seq<char>) -> Seq<char> {
    path_join(bundle_root(working_dir), "include"@)
}

pub open spec fn bundle_lib(working_dir: Seq<char>) -> Seq<char> {
    path_join(bundle_root(working_dir), "lib"@)
}

/// The header files a bundle holds.
pub open spec fn header_names() -> Seq<Seq<char>> {
    seq!["png.h"@, "pngconf.h"@, "pnglibconf.h"@]
}

/// The steps that stage after compiling: a fresh bundle root, the headers,
/// the library, and the removal of the scratch directory.
pub open spec fn staging_plan(family: OsFamily, package_dir: Seq<char>, working_dir: Seq<char>) -> Seq<
    StepView,
> {
    let build = build_dir(working_dir);
    let headers = bundle_include(working_dir);
    let lib = bundle_lib(working_dir);
    seq![
        StepView::ResetDir(bundle_root(working_dir)),
        StepView::MakeDir(headers),
        StepView::CopyFile(
            path_join(source_dir(package_dir), "png.h"@),
            path_join(headers, "png.h"@),
        ),
        StepView::CopyFile(
            path_join(source_dir(package_dir), "pngconf.h"@),
            path_join(headers, "pngconf.h"@),
        ),
        StepView::CopyFile(path_join(build, "pnglibconf.h"@), path_join(headers, "pnglibconf.h"@)),
        StepView::MakeDir(lib),
        StepView::CopyFile(
            artifact_location(build, family),
            path_join(lib, artifact_file_name(family)),
        ),
        StepView::Cleanup(build),
    ]
}

/// The steps of a bundle build: compile in the scratch directory, then stage.
pub open spec fn bundle_plan(
    args: Seq<Seq<char>>,
    family: OsFamily,
    package_dir: Seq<char>,
    working_dir: Seq<char>,
) -> Seq<StepView> {
    compile_plan(args, family, package_dir, build_dir(working_dir)) + staging_plan(
        family,
        package_dir,
        working_dir,
    )
}

/// What a bundle build hands its consumers.
pub open spec fn bundle_of(family: OsFamily, working_dir: Seq<char>) -> ArtifactsView {
    ArtifactsView {
        root_dir: bundle_root(working_dir),
        include_dir: bundle_include(working_dir),
        lib_dir: bundle_lib(working_dir),
        link_name: link_name_of(artifact_file_name(family), family),
    }
}

pub open spec fn step_views(v: Seq<Step>) -> Seq<StepView> {
    v.map_values(|s: Step| s@)
}

fn push_step(v: &mut Vec<Step>, s: Step)
    ensures
        step_views(final(v)@) == step_views(old(v)@).push(s@),
{
    let ghost sv = s@;
    v.push(s);
    assert(step_views(v@) =~= step_views(old(v)@).push(sv));
}

fn text(s: &str) -> (r: String)
    ensures
        r@ == s@,
{
    String::from_str(s)
}

fn compile_steps(args: Vec<String>, family: OsFamily, package_dir: &str, working_dir: &str) -> (r:
    Vec<Step>)
    ensures
        step_views(r@) == compile_plan(texts(args@), family, package_dir@, working_dir@),
{
    let mut args = args;
    let ghost configured = texts(args@);
    let source = source_path(package_dir);
    let ghost source_view = source@;
    args.push(source);
    assert(texts(args@) =~= configured.push(source_view));
    let mut build_args: Vec<String> = Vec::new();
    push_text(&mut build_args, "--build");
    push_text(&mut build_args, ".");
    push_text(&mut build_args, "--config");
    push_text(&mut build_args, "Release");
    assert(texts(build_args@) =~= build_tool_args());
    let mut r: Vec<Step> = Vec::new();
    push_step(&mut r, Step::ResetDir { path: text(working_dir) });
    push_step(&mut r, Step::Run { program: text("cmake"), args, cwd: text(working_dir) });
    push_step(&mut r, Step::Run { program: text("cmake"), args: build_args, cwd: text(working_dir) });
    push_step(&mut r, Step::ExpectFile { path: artifact_path(working_dir, family) });
    assert(step_views(r@) =~= compile_plan(configured, family, package_dir@, working_dir@));
    r
}

/// Plans the compilation of the library for `target` in `working_dir`. The
/// build yields the library's path once it has succeeded. Nothing is planned
/// for a target the host cannot build, nor on an unsupported host.
pub fn plan_compile(target: &str, host: &Host, package_dir: &str, working_dir: &str) -> (r: Result<
    Build<String>,
    BuildError,
>)
    ensures
        match r {
            Ok(b) => {
                &&& refusal(target@, host.os@, host.arch@) is None
                &&& b.wf()
                &&& b@.done == 0
                &&& b@.status is Running
                &&& b@.steps == compile_plan(
                    host_args(target@, host.os@, package_dir@),
                    os_family(host.os@)->0,
                    package_dir@,
                    working_dir@,
                )
                &&& b.planned()@ == artifact_location(working_dir@, os_family(host.os@)->0)
            },
            Err(e) => refusal(target@, host.os@, host.arch@) == Some(e@),
        },
{
    let (family, args) = resolve_for_host(target, host, package_dir)?;
    let steps = compile_steps(args, family, package_dir, working_dir);
    Ok(Build::new(steps, artifact_path(working_dir, family)))
}

fn staging_steps(family: OsFamily, package_dir: &str, working_dir: &str) -> (r: Vec<Step>)
    ensures
        step_views(r@) == staging_plan(family, package_dir@, working_dir@),
{
    let build = join_path(working_dir, "build");
    let root = join_path(working_dir, "libpng");
    let headers = join_path(root.as_str(), "include");
    let lib = join_path(root.as_str(), "lib");
    let source = source_path(package_dir);
    let mut r: Vec<Step> = Vec::new();
    push_step(&mut r, Step::ResetDir { path: root });
    push_step(&mut r, Step::MakeDir { path: headers.clone() });
    push_step(
        &mut r,
        Step::CopyFile {
            from: join_path(source.as_str(), "png.h"),
            to: join_path(headers.as_str(), "png.h"),
        },
    );
    push_step(
        &mut r,
        Step::CopyFile {
            from: join_path(source.as_str(), "pngconf.h"),
            to: join_path(headers.as_str(), "pngconf.h"),
        },
    );
    push_step(
        &mut r,
        Step::CopyFile {
            from: join_path(build.as_str(), "pnglibconf.h"),
            to: join_path(headers.as_str(), "pnglibconf.h"),
        },
    );
    push_step(&mut r, Step::MakeDir { path: lib.clone() });
    push_step(
        &mut r,
        Step::CopyFile {
            from: artifact_path(build.as_str(), family),
            to: join_path(lib.as_str(), artifact_name(family)),
        },
    );
    push_step(&mut r, Step::Cleanup { path: build });
    assert(step_views(r@) =~= staging_plan(family, package_dir@, working_dir@));
    r
}

/// Plans a bundle build for `target` in `working_dir`: the library compiled
/// in its `build` directory and staged with its headers under `libpng`.
/// The build yields what it hands its consumers once it has succeeded.
pub fn plan_bundle(target: &str, host: &Host, package_dir: &str, working_dir: &str) -> (r: Result<
    Build<Artifacts>,
    BuildError,
>)
    ensures
        match r {
            Ok(b) => {
                &&& refusal(target@, host.os@, host.arch@) is None
                &&& b.wf()
                &&& b@.done == 0
                &&& b@.status is Running
                &&& b@.steps == bundle_plan(
                    host_args(target@, host.os@, package_dir@),
                    os_family(host.os@)->0,
                    package_dir@,
                    working_dir@,
                )
                &&& b.planned()@ == bundle_of(os_family(host.os@)->0, working_dir@)
            },
            Err(e) => refusal(target@, host.os@, host.arch@) == Some(e@),
        },
{
    let (family, args) = resolve_for_host(target, host, package_dir)?;
    let build = join_path(working_dir, "build");
    let mut steps = compile_steps(args, family, package_dir, build.as_str());
    let ghost first = step_views(steps@);
    let mut staging = staging_steps(family, package_dir, working_dir);
    let ghost second = step_views(staging@);
    steps.append(&mut staging);
    assert(step_views(steps@) =~= first + second);
    let root = join_path(working_dir, "libpng");
    let artifacts = Artifacts {
        include_dir: join_path(root.as_str(), "include"),
        lib_dir: join_path(root.as_str(), "lib"),
        root_dir: root,
        link_name: link_name(text(artifact_name(family)), family),
    };
    Ok(Build::new(steps, artifacts))
}

} // verus!
