use vstd::prelude::*;

use crate::config::{host_args, refusal};
use crate::error::ErrorView;
use crate::naming::{artifact_file_name, artifact_location, dot_from, link_name_of, stem, strip_lib};
use crate::plan::{
    build_dir, bundle_include, bundle_lib, bundle_plan, bundle_root, compile_plan, header_names,
    staging_plan,
};
use crate::platform::{arch_kind, is_apple_mobile, os_family, permitted, target_named, OsFamily};
use crate::session::{
    after, detail, exit_code, step_succeeded, BuildView, OutcomeView, StatusView, StepView,
};
use crate::text::path_join;

verus! {

/// On a supported host, a target outside the host's allow-list is refused as
/// an unsupported target, naming the target and the host; no plan is made, so
/// no tool runs.
pub proof fn unsupported_target_is_refused(target: Seq<char>, os: Seq<char>, arch: Seq<char>)
    requires
        os_family(os) is Some,
        !permitted(target, os_family(os)->0, arch_kind(arch)),
    ensures
        refusal(target, os, arch) == Some(ErrorView::UnsupportedTarget(target, os, arch)),
{
}

/// A host whose operating system is none of macOS, Linux and Windows is
/// refused as unsupported, whatever the target.
pub proof fn unsupported_host_is_refused(target: Seq<char>, os: Seq<char>, arch: Seq<char>)
    requires
        os != "macos"@,
        os != "linux"@,
        os != "windows"@,
    ensures
        refusal(target, os, arch) == Some(ErrorView::UnsupportedHost(os)),
{
}

/// Every accepted configuration holds the two common flags, and that of an
/// Apple mobile target also names iOS as the system.
pub proof fn configuration_flags(
    target: Seq<char>,
    os: Seq<char>,
    arch: Seq<char>,
    package_dir: Seq<char>,
)
    requires
        refusal(target, os, arch) is None,
    ensures
        host_args(target, os, package_dir).contains("-DPNG_SHARED=OFF"@),
        host_args(target, os, package_dir).contains("-DPNG_TESTS=OFF"@),
        is_apple_mobile(target_named(target)->0) ==> host_args(target, os, package_dir).contains(
            "-DCMAKE_SYSTEM_NAME=iOS"@,
        ),
{
    let a = host_args(target, os, package_dir);
    assert(a[0] == "-DPNG_SHARED=OFF"@);
    assert(a[1] == "-DPNG_TESTS=OFF"@);
    if is_apple_mobile(target_named(target)->0) {
        assert(os_family(os)->0 == OsFamily::MacOs);
        assert(a[2] == "-DCMAKE_SYSTEM_NAME=iOS"@);
    }
}

/// A compilation starts by emptying its working directory, before any tool
/// runs, and both tools run inside it; nothing else is removed, so what the
/// directory holds afterwards comes from that compilation alone.
pub proof fn compile_starts_clean(
    args: Seq<Seq<char>>,
    family: OsFamily,
    package_dir: Seq<char>,
    working_dir: Seq<char>,
)
    ensures
        compile_plan(args, family, package_dir, working_dir)[0] == StepView::ResetDir(working_dir),
        forall|i: int|
            1 <= i < compile_plan(args, family, package_dir, working_dir).len() ==> {
                let s = #[trigger] compile_plan(args, family, package_dir, working_dir)[i];
                &&& !(s is ResetDir)
                &&& !(s is Cleanup)
                &&& (s matches StepView::Run(_, _, cwd) ==> cwd == working_dir)
            },
{
}

/// A program that ends without success ends the build with a tool failure
/// that names it, its exit status and its error output; no later step, the
/// check for the library included, is reached.
pub proof fn tool_failure_ends_build(b: BuildView, o: OutcomeView)
    requires
        b.status is Running,
        b.done < b.steps.len(),
        b.steps[b.done as int] is Run,
        !step_succeeded(b.steps[b.done as int], o),
    ensures
        b.steps[b.done as int] matches StepView::Run(program, _, _) && after(b, o).status
            == StatusView::Failed(ErrorView::ToolFailure(program, exit_code(o), detail(o))),
        after(b, o).done == b.done,
{
}

/// After both tools succeed, a compilation checks for the library where the
/// build leaves it; if it is not there the build fails as artifact-not-found.
pub proof fn missing_artifact_is_reported(
    args: Seq<Seq<char>>,
    family: OsFamily,
    package_dir: Seq<char>,
    working_dir: Seq<char>,
    o: OutcomeView,
)
    requires
        !(o is Done),
    ensures
        ({
            let steps = compile_plan(args, family, package_dir, working_dir);
            let b = BuildView { steps, done: 3, status: StatusView::Running };
            &&& steps[3] == StepView::ExpectFile(artifact_location(working_dir, family))
            &&& after(b, o).status == StatusView::Failed(
                ErrorView::ArtifactNotFound(artifact_location(working_dir, family)),
            )
        }),
{
}

proof fn dot_from_at_least(s: Seq<char>, i: int, j: int)
    requires
        0 <= i <= j <= s.len(),
        forall|k: int| i <= k < j ==> s[k] != '.',
    ensures
        j <= dot_from(s, i) <= s.len(),
    decreases s.len() - i,
{
    if i < s.len() && s[i] != '.' {
        let next = if j > i + 1 {
            j
        } else {
            i + 1
        };
        dot_from_at_least(s, i + 1, next);
    }
}

/// A bundle's root is emptied, its header directory made afresh and given
/// exactly the three headers, and the only other copy puts the library in the
/// library directory; the library's link name is never empty.
pub proof fn bundle_headers(
    args: Seq<Seq<char>>,
    family: OsFamily,
    package_dir: Seq<char>,
    working_dir: Seq<char>,
)
    ensures
        ({
            let p = bundle_plan(args, family, package_dir, working_dir);
            let headers = bundle_include(working_dir);
            &&& p.len() == 12
            &&& p[4] == StepView::ResetDir(bundle_root(working_dir))
            &&& p[5] == StepView::MakeDir(headers)
            &&& forall|k: int|
                0 <= k < 3 ==> (#[trigger] p[6 + k] matches StepView::CopyFile(_, to) && to
                    == path_join(headers, header_names()[k]))
            &&& forall|i: int|
                0 <= i < 12 && !(6 <= i < 9) && (#[trigger] p[i] is CopyFile) ==> p[i]
                    == StepView::CopyFile(
                    artifact_location(build_dir(working_dir), family),
                    path_join(bundle_lib(working_dir), artifact_file_name(family)),
                )
        }),
        link_name_of(artifact_file_name(family), family).len() > 0,
{
    let p = bundle_plan(args, family, package_dir, working_dir);
    let staging = staging_plan(family, package_dir, working_dir);
    assert(p.len() == 12);
    assert forall|i: int| 4 <= i < 12 implies p[i] == staging[i - 4] by {}
    assert(p[5] == staging_plan(family, package_dir, working_dir)[1]);
    assert(p[6] == staging_plan(family, package_dir, working_dir)[2]);
    assert(p[7] == staging_plan(family, package_dir, working_dir)[3]);
    assert(p[8] == staging_plan(family, package_dir, working_dir)[4]);
    reveal_strlit("libpng16_static.lib");
    reveal_strlit("libpng16.a");
    let f = artifact_file_name(family);
    dot_from_at_least(f, 0, 4);
    assert(stem(f).len() >= 4);
    assert(strip_lib(stem(f)).len() >= 1);
}

/// A bundle build ends by removing its scratch directory, and it succeeds
/// once that step is done, whether or not the removal worked.
pub proof fn bundle_ends_with_cleanup(
    args: Seq<Seq<char>>,
    family: OsFamily,
    package_dir: Seq<char>,
    working_dir: Seq<char>,
    o: OutcomeView,
)
    ensures
        ({
            let steps = bundle_plan(args, family, package_dir, working_dir);
            let last = (steps.len() - 1) as nat;
            let b = BuildView { steps, done: last, status: StatusView::Running };
            &&& steps[last as int] == StepView::Cleanup(build_dir(working_dir))
            &&& after(b, o).status == StatusView::Succeeded
        }),
{
    let steps = bundle_plan(args, family, package_dir, working_dir);
    assert(steps.len() == 12);
    assert(steps[11] == staging_plan(family, package_dir, working_dir)[7]);
}

} // verus!
