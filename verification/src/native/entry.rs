//! The first decisions of a build.
use vstd::prelude::*;

verus! {

/// What a build does.
#[derive(Clone, Copy, Debug, PartialEq, Eq, Structural)]
pub enum Entry {
    /// Nothing: the engine is not needed.
    Skip,
    /// Build the engine from source.
    Vendored,
    /// Look for an installed library, and build from source where there is none.
    TryInstalled,
}

/// Decides what a build does. Documentation builds and interpreted tests do not
/// link the engine. An explicit source directory is authoritative; otherwise an
/// installed library is preferred where looking for one is enabled.
pub fn entry(docs_rs: bool, miri: bool, source_dir_set: bool, pkg_config: bool) -> (e: Entry)
    ensures
        e == (if docs_rs || miri {
            Entry::Skip
        } else if source_dir_set || !pkg_config {
            Entry::Vendored
        } else {
            Entry::TryInstalled
        }),
{
    if docs_rs {
        return Entry::Skip;
    }
    if miri {
        return Entry::Skip;
    }
    if source_dir_set {
        return Entry::Vendored;
    }
    if pkg_config {
        return Entry::TryInstalled;
    }
    Entry::Vendored
}

/// What makes cargo run the build again: environment variables, then files.
pub open spec fn rerun_conditions() -> Seq<Seq<char>> {
    seq![
        "cargo:rerun-if-env-changed=LIBGHOSTTY_VT_SYS_CPU"@,
        "cargo:rerun-if-env-changed=LIBGHOSTTY_VT_SYS_OPTIMIZE"@,
        "cargo:rerun-if-env-changed=GHOSTTY_SOURCE_DIR"@,
        "cargo:rerun-if-env-changed=GHOSTTY_ZIG_SYSTEM_DIR"@,
        "cargo:rerun-if-env-changed=TARGET"@,
        "cargo:rerun-if-env-changed=HOST"@,
        "cargo:rerun-if-env-changed=DEBUG"@,
        "cargo:rerun-if-env-changed=OPT_LEVEL"@,
        "cargo:rerun-if-changed=crates/libghostty-vt-sys/build.rs"@,
        "cargo:rerun-if-changed=patches/spacer-head-dirty.patch"@,
    ]
}

/// The lines that tell cargo when to run the build again.
pub fn rerun_lines() -> (lines: Vec<&'static str>)
    ensures
        lines@.map_values(|s: &'static str| s@) == rerun_conditions(),
{
    let lines: Vec<&'static str> = vec![
        "cargo:rerun-if-env-changed=LIBGHOSTTY_VT_SYS_CPU",
        "cargo:rerun-if-env-changed=LIBGHOSTTY_VT_SYS_OPTIMIZE",
        "cargo:rerun-if-env-changed=GHOSTTY_SOURCE_DIR",
        "cargo:rerun-if-env-changed=GHOSTTY_ZIG_SYSTEM_DIR",
        "cargo:rerun-if-env-changed=TARGET",
        "cargo:rerun-if-env-changed=HOST",
        "cargo:rerun-if-env-changed=DEBUG",
        "cargo:rerun-if-env-changed=OPT_LEVEL",
        "cargo:rerun-if-changed=crates/libghostty-vt-sys/build.rs",
        "cargo:rerun-if-changed=patches/spacer-head-dirty.patch",
    ];
    assert(lines@.map_values(|s: &'static str| s@) =~= rerun_conditions());
    lines
}

/// The engine is left alone exactly where the documentation is built or tests are
/// interpreted. Otherwise an installed library is looked for exactly where that is
/// enabled and no source directory was given.
pub proof fn law_installed_libraries_are_looked_for_on_request(
    docs_rs: bool,
    miri: bool,
    source_dir_set: bool,
    pkg_config: bool,
    e: Entry,
)
    requires
        call_ensures(entry, (docs_rs, miri, source_dir_set, pkg_config), e),
    ensures
        e == Entry::Skip <==> docs_rs || miri,
        e == Entry::TryInstalled <==> !docs_rs && !miri && !source_dir_set && pkg_config,
        e == Entry::Vendored <==> !docs_rs && !miri && (source_dir_set || !pkg_config),
{
}

/// A build runs again where one of the eight variables that it reads, its script or
/// the patch has changed, each of which has a line of its own.
pub proof fn law_builds_follow_what_they_read(lines: Vec<&'static str>)
    requires
        call_ensures(rerun_lines, (), lines),
    ensures
        lines@.len() == 10,
        lines@[0]@ == "cargo:rerun-if-env-changed=LIBGHOSTTY_VT_SYS_CPU"@,
        lines@[1]@ == "cargo:rerun-if-env-changed=LIBGHOSTTY_VT_SYS_OPTIMIZE"@,
        lines@[2]@ == "cargo:rerun-if-env-changed=GHOSTTY_SOURCE_DIR"@,
        lines@[3]@ == "cargo:rerun-if-env-changed=GHOSTTY_ZIG_SYSTEM_DIR"@,
        lines@[4]@ == "cargo:rerun-if-env-changed=TARGET"@,
        lines@[5]@ == "cargo:rerun-if-env-changed=HOST"@,
        lines@[6]@ == "cargo:rerun-if-env-changed=DEBUG"@,
        lines@[7]@ == "cargo:rerun-if-env-changed=OPT_LEVEL"@,
        lines@[8]@ == "cargo:rerun-if-changed=crates/libghostty-vt-sys/build.rs"@,
        lines@[9]@ == "cargo:rerun-if-changed=patches/spacer-head-dirty.patch"@,
{
    let shown = lines@.map_values(|s: &'static str| s@);
    assert(shown.len() == lines@.len());
    assert forall|i: int| 0 <= i < lines@.len() implies #[trigger] lines@[i]@ == shown[i] by {}
}

} // verus!
