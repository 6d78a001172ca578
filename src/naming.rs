use vstd::prelude::*;

use crate::platform::OsFamily;
use crate::text::{join_path, path_join};

verus! {

/// The vendored library sources inside the package directory.
pub open spec fn source_dir(package_dir: Seq<char>) -> Seq<char> {
    path_join(package_dir, "libpng"@)
}

/// The file name the build tool gives the static library on a host.
pub open spec fn artifact_file_name(family: OsFamily) -> Seq<char> {
    if family == OsFamily::Windows {
        "libpng16_static.lib"@
    } else {
        "libpng16.a"@
    }
}

/// Where the build tool leaves the static library inside `working_dir`.
pub open spec fn artifact_location(working_dir: Seq<char>, family: OsFamily) -> Seq<char> {
    if family == OsFamily::Windows {
        path_join(path_join(working_dir, "Release"@), artifact_file_name(family))
    } else {
        path_join(working_dir, artifact_file_name(family))
    }
}

/// The index of the first `.` of `s` at or after `i`, or the length of `s`.
pub open spec fn dot_from(s: Seq<char>, i: int) -> int
    decreases s.len() - i,
{
    if i < 0 || i >= s.len() {
        s.len() as int
    } else if s[i] == '.' {
        i
    } else {
        dot_from(s, i + 1)
    }
}

/// What comes before the first `.` of a file name.
pub open spec fn stem(s: Seq<char>) -> Seq<char> {
    s.subrange(0, dot_from(s, 0))
}

/// `s` without a leading `lib`.
pub open spec fn strip_lib(s: Seq<char>) -> Seq<char> {
    if s.len() >= 3 && s[0] == 'l' && s[1] == 'i' && s[2] == 'b' {
        s.subrange(3, s.len() as int)
    } else {
        s
    }
}

/// The name a linker is given for a library file: the stem, and on hosts
/// other than Windows without its `lib` prefix.
pub open spec fn link_name_of(file_name: Seq<char>, family: OsFamily) -> Seq<char> {
    if family == OsFamily::Windows {
        stem(file_name)
    } else {
        strip_lib(stem(file_name))
    }
}

/// The directory of the vendored library sources, without any generated
/// file.
pub fn source_path(package_dir: &str) -> (r: String)
    ensures
        r@ == source_dir(package_dir@),
{
    join_path(package_dir, "libpng")
}

/// The static library's file name on a host.
pub fn artifact_name(family: OsFamily) -> (r: &'static str)
    ensures
        r@ == artifact_file_name(family),
{
    if family == OsFamily::Windows {
        "libpng16_static.lib"
    } else {
        "libpng16.a"
    }
}

/// Where the static library is expected after a build in `working_dir`.
pub fn artifact_path(working_dir: &str, family: OsFamily) -> (r: String)
    ensures
        r@ == artifact_location(working_dir@, family),
{
    if family == OsFamily::Windows {
        let release = join_path(working_dir, "Release");
        join_path(release.as_str(), artifact_name(family))
    } else {
        join_path(working_dir, artifact_name(family))
    }
}

/// Derives the linker's library name from a library file name.
pub fn link_name(file_name: String, family: OsFamily) -> (r: String)
    ensures
        r@ == link_name_of(file_name@, family),
{
    let s = file_name.as_str();
    let n = s.unicode_len();
    let mut end: usize = 0;
    while end < n && s.get_char(end) != '.'
        invariant
            n == s@.len(),
            end <= n,
            dot_from(s@, 0) == dot_from(s@, end as int),
        decreases n - end,
    {
        end = end + 1;
    }
    let start: usize = if family != OsFamily::Windows && end >= 3 && s.get_char(0) == 'l'
        && s.get_char(1) == 'i' && s.get_char(2) == 'b' {
        3
    } else {
        0
    };
    let r = String::from_str(s.substring_char(start, end));
    proof {
        let st = stem(s@);
        assert(dot_from(s@, 0) == end);
        assert(st.len() == end);
        if end >= 3 {
            assert(st[0] == s@[0] && st[1] == s@[1] && st[2] == s@[2]);
        }
        if start == 3 {
            assert(r@ =~= st.subrange(3, st.len() as int));
        } else {
            assert(r@ =~= st);
        }
    }
    r
}

} // verus!
