//! Which library file a build is expected to leave, and where.
use vstd::prelude::*;
use vstd::string::*;

use crate::text::{contains, ends_with, same_text, starts_with};

verus! {

/// How the engine is linked.
#[derive(Clone, Copy, Debug, PartialEq, Eq, Structural)]
pub enum LinkMode {
    Dynamic,
    Static,
}

/// The file that a build for `target` leaves, by its name.
pub open spec fn is_library(mode: LinkMode, target: Seq<char>, file: Seq<char>) -> bool {
    match mode {
        LinkMode::Dynamic => if crate::text::occurs_in("darwin"@, target) {
            crate::text::begins_with(file, "libghostty-vt"@) && crate::text::finishes_with(
                file,
                ".dylib"@,
            )
        } else if crate::text::occurs_in("windows"@, target) {
            file == "ghostty-vt.lib"@ || file == "ghostty-vt.dll"@ || file
                == "libghostty-vt.dll.lib"@ || file == "libghostty-vt.dll.a"@
        } else {
            file == "libghostty-vt.so"@ || crate::text::begins_with(file, "libghostty-vt.so."@)
        },
        LinkMode::Static => if crate::text::occurs_in("windows"@, target) {
            file == "ghostty-vt-static.lib"@
        } else {
            file == "libghostty-vt.a"@
        },
    }
}

/// What the library is called in messages.
pub open spec fn kind_text(mode: LinkMode) -> Seq<char> {
    match mode {
        LinkMode::Dynamic => "shared library"@,
        LinkMode::Static => "static library"@,
    }
}

impl LinkMode {
    /// The link mode of this build: dynamic by default, static where the
    /// `link-static` feature is enabled.
    pub fn current(link_static: bool) -> (m: LinkMode)
        ensures
            m == (if link_static {
                LinkMode::Static
            } else {
                LinkMode::Dynamic
            }),
    {
        if link_static {
            LinkMode::Static
        } else {
            LinkMode::Dynamic
        }
    }

    /// What the library is called in messages.
    pub fn artifact_kind(self) -> (s: &'static str)
        ensures
            s@ == kind_text(self),
    {
        match self {
            LinkMode::Dynamic => "shared library",
            LinkMode::Static => "static library",
        }
    }

    /// Whether a file of this name is the library that was asked for. On Windows
    /// the static archive has a name of its own, so that it is not mistaken for
    /// the import library of the DLL.
    pub fn matches_library(self, target: &str, file_name: &str) -> (b: bool)
        ensures
            b == is_library(self, target@, file_name@),
    {
        match self {
            LinkMode::Dynamic => {
                if contains(target, "darwin") {
                    starts_with(file_name, "libghostty-vt") && ends_with(file_name, ".dylib")
                } else if contains(target, "windows") {
                    same_text(file_name, "ghostty-vt.lib") || same_text(
                        file_name,
                        "ghostty-vt.dll",
                    ) || same_text(file_name, "libghostty-vt.dll.lib") || same_text(
                        file_name,
                        "libghostty-vt.dll.a",
                    )
                } else {
                    same_text(file_name, "libghostty-vt.so") || starts_with(
                        file_name,
                        "libghostty-vt.so.",
                    )
                }
            },
            LinkMode::Static => {
                if contains(target, "windows") {
                    same_text(file_name, "ghostty-vt-static.lib")
                } else {
                    same_text(file_name, "libghostty-vt.a")
                }
            },
        }
    }

    /// The name under which pkg-config knows the library.
    pub fn pkg_config_name(self) -> (s: &'static str)
        ensures
            s@ == match self {
                LinkMode::Dynamic => "libghostty-vt"@,
                LinkMode::Static => "libghostty-vt-static"@,
            },
    {
        match self {
            LinkMode::Dynamic => "libghostty-vt",
            LinkMode::Static => "libghostty-vt-static",
        }
    }
}

/// The directories below the install prefix that are searched for the library.
/// On Windows the DLL may be in `bin` and the import library in `lib`.
pub fn library_search_dirs(target: &str) -> (dirs: Vec<&'static str>)
    ensures
        dirs@.len() == (if crate::text::occurs_in("windows"@, target@) {
            2int
        } else {
            1int
        }),
        dirs@[0]@ == "lib"@,
        dirs@.len() == 2 ==> dirs@[1]@ == "bin"@,
{
    let mut dirs: Vec<&'static str> = Vec::new();
    dirs.push("lib");
    if contains(target, "windows") {
        dirs.push("bin");
    }
    dirs
}

/// Whether the library that was asked for is among the files; names that are not
/// text are `None`.
pub fn has_requested_library(mode: LinkMode, target: &str, files: &Vec<Option<String>>) -> (b: bool)
    ensures
        b == exists|i: int|
            0 <= i < files@.len() && (#[trigger] files@[i] matches Some(name) && is_library(
                mode,
                target@,
                name@,
            )),
{
    let mut i: usize = 0;
    while i < files.len()
        invariant
            i <= files@.len(),
            forall|k: int|
                0 <= k < i ==> !(#[trigger] files@[k] matches Some(name) && is_library(
                    mode,
                    target@,
                    name@,
                )),
        decreases files@.len() - i,
    {
        if let Some(name) = &files[i] {
            if mode.matches_library(target, name.as_str()) {
                assert(files@[i as int] matches Some(name) && is_library(mode, target@, name@));
                return true;
            }
        }
        i = i + 1;
    }
    false
}

/// On Windows a static build never takes a file of a dynamic build for its own,
/// nor the other way round.
pub proof fn law_windows_libraries_are_told_apart(target: Seq<char>, file: Seq<char>)
    requires
        crate::text::occurs_in("windows"@, target),
        !crate::text::occurs_in("darwin"@, target),
    ensures
        !(is_library(LinkMode::Static, target, file) && is_library(
            LinkMode::Dynamic,
            target,
            file,
        )),
{
    reveal_strlit("ghostty-vt.lib");
    reveal_strlit("ghostty-vt.dll");
    reveal_strlit("libghostty-vt.dll.lib");
    reveal_strlit("libghostty-vt.dll.a");
    reveal_strlit("ghostty-vt-static.lib");
    assert("ghostty-vt-static.lib"@.len() == 21);
    assert("libghostty-vt.dll.lib"@.len() == 21);
    assert("ghostty-vt-static.lib"@[0] == 'g');
    assert("libghostty-vt.dll.lib"@[0] == 'l');
}

/// The feature decides how the engine is linked, what the library is called in
/// messages and what pkg-config knows it as.
pub proof fn law_the_feature_decides_the_link(
    link_static: bool,
    m: LinkMode,
    kind: &'static str,
    name: &'static str,
)
    requires
        call_ensures(LinkMode::current, (link_static,), m),
        call_ensures(LinkMode::artifact_kind, (m,), kind),
        call_ensures(LinkMode::pkg_config_name, (m,), name),
    ensures
        link_static ==> m == LinkMode::Static && kind@ == "static library"@ && name@
            == "libghostty-vt-static"@,
        !link_static ==> m == LinkMode::Dynamic && kind@ == "shared library"@ && name@
            == "libghostty-vt"@,
{
}

/// Every system has its own names for the library. A shared one is a `.dylib` on
/// macOS, whatever its version, a DLL or its import library on Windows, and a `.so`
/// elsewhere, whatever its version; a static one has one name on Windows and
/// another elsewhere.
pub proof fn law_libraries_are_named_by_system(
    target: &str,
    file: &str,
    darwin: bool,
    windows: bool,
    shared: bool,
    archive: bool,
)
    requires
        call_ensures(contains, (target, "darwin"), darwin),
        call_ensures(contains, (target, "windows"), windows),
        call_ensures(LinkMode::matches_library, (LinkMode::Dynamic, target, file), shared),
        call_ensures(LinkMode::matches_library, (LinkMode::Static, target, file), archive),
    ensures
        darwin ==> (shared <==> crate::text::begins_with(file@, "libghostty-vt"@)
            && crate::text::finishes_with(file@, ".dylib"@)),
        !darwin && windows ==> (shared <==> file@ == "ghostty-vt.lib"@ || file@
            == "ghostty-vt.dll"@ || file@ == "libghostty-vt.dll.lib"@ || file@
            == "libghostty-vt.dll.a"@),
        !darwin && !windows ==> (shared <==> file@ == "libghostty-vt.so"@
            || crate::text::begins_with(file@, "libghostty-vt.so."@)),
        windows ==> (archive <==> file@ == "ghostty-vt-static.lib"@),
        !windows ==> (archive <==> file@ == "libghostty-vt.a"@),
{
}

/// The library is found exactly where one of the files has a name that is text and
/// is one of the library's; names that are not text do not matter. Only on Windows
/// is it looked for in a second directory.
pub proof fn law_libraries_are_found_by_name(
    mode: LinkMode,
    target: &str,
    files: Vec<Option<String>>,
    found: bool,
    windows: bool,
    dirs: Vec<&'static str>,
)
    requires
        call_ensures(has_requested_library, (mode, target, &files), found),
        call_ensures(contains, (target, "windows"), windows),
        call_ensures(library_search_dirs, (target,), dirs),
    ensures
        found ==> exists|i: int|
            0 <= i < files@.len() && #[trigger] files@[i] is Some && forall|f: &str, b: bool|
                f@ == files@[i]->0@ && #[trigger] call_ensures(
                    LinkMode::matches_library,
                    (mode, target, f),
                    b,
                ) ==> b,
        !found ==> forall|i: int, f: &str, b: bool|
            0 <= i < files@.len() && (#[trigger] files@[i] is Some && f@ == files@[i]->0@
                && #[trigger] call_ensures(LinkMode::matches_library, (mode, target, f), b))
                ==> !b,
        dirs@[0]@ == "lib"@,
        windows ==> dirs@.len() == 2 && dirs@[1]@ == "bin"@,
        !windows ==> dirs@.len() == 1,
{
}

} // verus!
