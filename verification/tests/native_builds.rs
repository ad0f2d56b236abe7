//! Building the engine.
use ghostty::native::entry::{entry, rerun_lines, Entry};
use ghostty::native::fetch::{
    apply_wrap_spacer_head_patch, checkout_command, clone_command, fetch_plan, pinned_commit,
    stamp_value, Fetch, FetchAction, FetchPlan, FetchStage, GitArg, PATCH_FILE, STAMP_FILE, TREE_DIR,
};
use ghostty::native::link::{has_requested_library, library_search_dirs, LinkMode};
use ghostty::native::vendored::{
    check_product, dynamic_link_line, run, search_line, source_dir, zig_build, BuildError,
    BuildProduct, BuildRequest, ZigArg,
};
use ghostty::native::xcframework::{extract_xcframework_lib, ios_xcframework_platform, Slice};

const LINUX: &str = "x86_64-unknown-linux-gnu";
const MACOS: &str = "aarch64-apple-darwin";
const WINDOWS: &str = "x86_64-pc-windows-msvc";

#[test]
fn linking_is_dynamic_by_default() {
    assert_eq!(LinkMode::current(false), LinkMode::Dynamic);
    assert_eq!(LinkMode::current(true), LinkMode::Static);
    assert_eq!(LinkMode::Dynamic.artifact_kind(), "shared library");
    assert_eq!(LinkMode::Static.artifact_kind(), "static library");
    assert_eq!(LinkMode::Dynamic.pkg_config_name(), "libghostty-vt");
    assert_eq!(LinkMode::Static.pkg_config_name(), "libghostty-vt-static");
}

#[test]
fn libraries_are_known_by_their_names() {
    let dynamic = |target, name| LinkMode::Dynamic.matches_library(target, name);
    let fixed = |target, name| LinkMode::Static.matches_library(target, name);
    assert!(dynamic(LINUX, "libghostty-vt.so"));
    assert!(dynamic(LINUX, "libghostty-vt.so.0.1"));
    assert!(!dynamic(LINUX, "libghostty-vt.sox"));
    assert!(!dynamic(LINUX, "libghostty-vt.a"));
    assert!(dynamic(MACOS, "libghostty-vt.0.dylib"));
    assert!(!dynamic(MACOS, "ghostty-vt.dylib"));
    assert!(!dynamic(MACOS, "libghostty-vt.so"));
    for name in ["ghostty-vt.lib", "ghostty-vt.dll", "libghostty-vt.dll.lib", "libghostty-vt.dll.a"] {
        assert!(dynamic(WINDOWS, name));
        assert!(!fixed(WINDOWS, name));
    }
    assert!(fixed(WINDOWS, "ghostty-vt-static.lib"));
    assert!(!dynamic(WINDOWS, "ghostty-vt-static.lib"));
    assert!(fixed(LINUX, "libghostty-vt.a"));
    assert!(fixed(MACOS, "libghostty-vt.a"));
    assert!(!fixed(WINDOWS, "libghostty-vt.a"));
}

#[test]
fn libraries_are_searched_for() {
    assert_eq!(library_search_dirs(LINUX), ["lib"]);
    assert_eq!(library_search_dirs(WINDOWS), ["lib", "bin"]);
    let files = vec![None, Some("README".to_owned()), Some("libghostty-vt.a".to_owned())];
    assert!(has_requested_library(LinkMode::Static, LINUX, &files));
    assert!(!has_requested_library(LinkMode::Dynamic, LINUX, &files));
    assert!(!has_requested_library(LinkMode::Static, LINUX, &vec![]));
}

#[test]
fn ios_platforms() {
    assert_eq!(ios_xcframework_platform("aarch64-apple-ios"), Some("ios-arm64"));
    assert_eq!(ios_xcframework_platform("aarch64-apple-ios-sim"), Some("ios-arm64-simulator"));
    assert_eq!(ios_xcframework_platform("x86_64-apple-ios"), None);
    assert_eq!(ios_xcframework_platform(LINUX), None);
}

#[test]
fn builds_start_where_they_should() {
    assert_eq!(entry(true, false, true, true), Entry::Skip);
    assert_eq!(entry(false, true, true, true), Entry::Skip);
    assert_eq!(entry(false, false, true, true), Entry::Vendored);
    assert_eq!(entry(false, false, false, true), Entry::TryInstalled);
    assert_eq!(entry(false, false, false, false), Entry::Vendored);
    let lines = rerun_lines();
    assert_eq!(lines.len(), 10);
    assert_eq!(lines[0], "cargo:rerun-if-env-changed=LIBGHOSTTY_VT_SYS_CPU");
    assert_eq!(lines[9], "cargo:rerun-if-changed=patches/spacer-head-dirty.patch");
}

#[test]
fn stamped_trees_are_reused() {
    let stamp = stamp_value();
    assert_eq!(stamp, "03c6f818eaeadf76e66dda99ab5529c9b47fa15c:phux-5js7");
    assert!(stamp.starts_with(pinned_commit()));
    assert_eq!(fetch_plan(Some(stamp), true), FetchPlan::Reuse);
    assert_eq!(fetch_plan(Some(&format!("  {stamp}\n")), true), FetchPlan::Reuse);
    assert_eq!(
        fetch_plan(Some("03c6f818eaeadf76e66dda99ab5529c9b47fa15c"), true),
        FetchPlan::Clone { remove: true }
    );
    assert_eq!(fetch_plan(None, true), FetchPlan::Clone { remove: true });
    assert_eq!(fetch_plan(None, false), FetchPlan::Clone { remove: false });
}

fn git(args: &[GitArg]) -> Vec<&'static str> {
    args.iter()
        .map(|a| match a {
            GitArg::Text(s) => *s,
            GitArg::Tree => "<tree>",
            GitArg::Patch => "<patch>",
        })
        .collect()
}

#[test]
fn git_is_called_three_times() {
    let clone = clone_command();
    assert_eq!(clone.context, "git clone ghostty");
    assert_eq!(
        git(&clone.args),
        ["clone", "--filter=blob:none", "--no-checkout", "https://github.com/phall1/ghostty.git", "<tree>"]
    );
    assert!(!clone.in_tree);
    let checkout = checkout_command();
    assert_eq!(git(&checkout.args), ["checkout", "03c6f818eaeadf76e66dda99ab5529c9b47fa15c"]);
    assert!(checkout.in_tree);
    let apply = apply_wrap_spacer_head_patch("p", true).unwrap();
    assert_eq!(git(&apply.args), ["apply", "<patch>"]);
    assert_eq!(apply.context, "git apply spacer-head-dirty patch");
    assert_eq!(
        apply_wrap_spacer_head_patch("/x/p.patch", false).unwrap_err().message(),
        "missing wrap spacer-head dirty patch at /x/p.patch"
    );
}

fn step(fetch: &Fetch) -> String {
    match fetch.action("p", true).unwrap_or_else(|_| panic!()) {
        FetchAction::Remove => String::from("remove"),
        FetchAction::Run(command) => command.context.to_owned(),
        FetchAction::WriteStamp(stamp) => format!("stamp {stamp}"),
        FetchAction::Finish => String::from("finish"),
    }
}

fn steps(mut fetch: Fetch) -> Vec<String> {
    let mut out = Vec::new();
    while fetch.stage() != FetchStage::Fetched {
        out.push(step(&fetch));
        fetch.advance(true);
    }
    assert_eq!(step(&fetch), "finish");
    out
}

#[test]
fn the_stamp_is_written_last() {
    let fresh = [
        "git clone ghostty".to_owned(),
        checkout_command().context.to_owned(),
        "git apply spacer-head-dirty patch".to_owned(),
        format!("stamp {}", stamp_value()),
    ];
    assert_eq!(steps(Fetch::new(None, false)), fresh);
    let replaced = steps(Fetch::new(Some("old"), true));
    assert_eq!(replaced[0], "remove");
    assert_eq!(replaced[1..], fresh);
    assert!(steps(Fetch::new(Some(stamp_value()), true)).is_empty());
    assert_eq!((TREE_DIR, STAMP_FILE), ("ghostty-src", ".ghostty-commit"));
    assert_eq!(PATCH_FILE, "patches/spacer-head-dirty.patch");
}

#[test]
fn a_failed_step_ends_fetching() {
    for done in 0..5 {
        let mut fetch = Fetch::new(None, true);
        for _ in 0..done {
            fetch.advance(true);
        }
        fetch.advance(false);
        assert_eq!(fetch.stage(), FetchStage::Failed);
        fetch.advance(true);
        assert_eq!(fetch.stage(), FetchStage::Failed);
    }
    let mut fetched = Fetch::new(Some(stamp_value()), true);
    fetched.advance(false);
    assert_eq!(fetched.stage(), FetchStage::Fetched);
}

#[test]
fn the_patch_is_looked_for_when_it_is_applied() {
    let mut fetch = Fetch::new(None, false);
    assert!(matches!(fetch.action("/x/p.patch", false), Ok(FetchAction::Run(_))));
    fetch.advance(true);
    assert!(fetch.action("/x/p.patch", false).is_ok());
    fetch.advance(true);
    assert_eq!(fetch.stage(), FetchStage::Patching);
    match fetch.action("/x/p.patch", false) {
        Err(error) => {
            assert_eq!(error.message(), "missing wrap spacer-head dirty patch at /x/p.patch");
        }
        Ok(_) => panic!(),
    }
    assert!(fetch.action("/x/p.patch", true).is_ok());
}

fn request(target: &str, host: &str) -> BuildRequest {
    BuildRequest {
        link_mode: LinkMode::Static,
        target: target.to_owned(),
        host: host.to_owned(),
        optimize: "ReleaseFast".to_owned(),
        zig_target: "zig-target".to_owned(),
        cpu: None,
        system_dir: None,
    }
}

fn zig(args: &[ZigArg]) -> Vec<String> {
    args.iter()
        .map(|a| match a {
            ZigArg::Text(s) => s.clone(),
            ZigArg::InstallPrefix => "<prefix>".to_owned(),
            ZigArg::CacheDir => "<cache>".to_owned(),
            ZigArg::SystemDir => "<system>".to_owned(),
            ZigArg::GlobalCacheDir => "<global>".to_owned(),
        })
        .collect()
}

#[test]
fn zig_is_called_for_the_host() {
    assert_eq!(
        zig(&zig_build(&request(LINUX, LINUX)).unwrap()),
        [
            "build",
            "-Demit-lib-vt=true",
            "-Doptimize=ReleaseFast",
            "-Dcpu=baseline",
            "-Demit-xcframework=false",
            "-Dapp-runtime=none",
            "--prefix",
            "<prefix>",
            "--cache-dir",
            "<cache>",
        ]
    );
}

#[test]
fn zig_is_called_for_another_target_with_packages() {
    let mut r = request(WINDOWS, LINUX);
    r.cpu = Some("native".to_owned());
    r.system_dir = Some(("/packages".to_owned(), true));
    let args = zig(&zig_build(&r).unwrap());
    assert_eq!(args[3], "-Dcpu=native");
    assert_eq!(
        args[10..],
        ["--system", "<system>", "--global-cache-dir", "<global>", "-Dtarget=zig-target"]
    );
}

#[test]
fn zig_is_called_for_ios_without_a_target() {
    let args = zig(&zig_build(&request("aarch64-apple-ios", MACOS)).unwrap());
    assert_eq!(args[4], "-Demit-xcframework=true");
    assert_eq!(args.len(), 10);
}

#[test]
fn builds_are_refused_with_a_reason() {
    let text = |r: &BuildRequest| zig_build(r).unwrap_err().message();
    let mut r = request(LINUX, LINUX);
    r.cpu = Some(String::new());
    r.system_dir = Some((String::new(), true));
    assert_eq!(text(&r), "LIBGHOSTTY_VT_SYS_CPU must not be empty when set");
    r.cpu = None;
    assert_eq!(text(&r), "GHOSTTY_ZIG_SYSTEM_DIR must not be empty when set");
    r.system_dir = Some(("/none".to_owned(), false));
    assert_eq!(text(&r), "GHOSTTY_ZIG_SYSTEM_DIR does not exist: /none");
    assert_eq!(
        text(&request("aarch64-apple-ios", LINUX)),
        "building for aarch64-apple-ios requires a macOS host with Xcode and the iOS SDK \
         (ghostty's emit-xcframework path runs host-native); host is x86_64-unknown-linux-gnu"
    );
    let mut r = request("aarch64-apple-ios-sim", MACOS);
    r.link_mode = LinkMode::Dynamic;
    assert_eq!(
        text(&r),
        "building for aarch64-apple-ios-sim supports static linking only; enable the link-static feature"
    );
}

#[test]
fn sources_come_from_the_given_directory_or_the_pin() {
    assert!(matches!(source_dir(None, false), Ok(false)));
    assert!(matches!(source_dir(Some("/src"), true), Ok(true)));
    assert_eq!(
        source_dir(Some("/src"), false).unwrap_err().message(),
        "GHOSTTY_SOURCE_DIR does not contain build.zig: /src"
    );
}

#[test]
fn commands_have_to_succeed() {
    assert!(run("zig build", Ok((true, "exit status: 0".to_owned()))).is_ok());
    assert_eq!(
        run("zig build", Ok((false, "exit status: 1".to_owned()))).unwrap_err().message(),
        "zig build failed with status exit status: 1"
    );
    assert_eq!(
        run("git clone ghostty", Err("not found".to_owned())).unwrap_err().message(),
        "failed to execute git clone ghostty: not found"
    );
}

#[test]
fn products_are_checked() {
    let mut product = BuildProduct {
        files: vec![Some("libghostty-vt.so".to_owned())],
        dirs: "[\"/p/lib\"]".to_owned(),
        header: "/p/include/ghostty/vt.h".to_owned(),
        header_exists: true,
    };
    assert!(check_product(LinkMode::Dynamic, LINUX, &product).is_ok());
    assert_eq!(
        check_product(LinkMode::Static, LINUX, &product).unwrap_err().message(),
        "expected libghostty-vt static library in one of [\"/p/lib\"]"
    );
    product.header_exists = false;
    assert_eq!(
        check_product(LinkMode::Dynamic, LINUX, &product).unwrap_err().message(),
        "expected header at /p/include/ghostty/vt.h"
    );
    assert_eq!(search_line("/p/lib"), "cargo:rustc-link-search=native=/p/lib");
    assert_eq!(dynamic_link_line(LinkMode::Dynamic), Some("cargo:rustc-link-lib=dylib=ghostty-vt"));
    assert_eq!(dynamic_link_line(LinkMode::Static), None);
}

#[test]
fn slices_are_taken_out_of_the_xcframework() {
    let mut slice = Slice {
        platform: "ios-arm64".to_owned(),
        dir: "/p/lib/ghostty-vt.xcframework/ios-arm64".to_owned(),
        dir_exists: true,
        library: "/p/l.a".to_owned(),
        library_exists: true,
        headers_exist: true,
    };
    assert!(matches!(extract_xcframework_lib(&slice), Ok(true)));
    slice.headers_exist = false;
    assert!(matches!(extract_xcframework_lib(&slice), Ok(false)));
    slice.library_exists = false;
    assert_eq!(
        extract_xcframework_lib(&slice).unwrap_err().message(),
        "expected static lib at /p/l.a"
    );
    slice.dir_exists = false;
    assert_eq!(
        extract_xcframework_lib(&slice).unwrap_err().message(),
        "expected xcframework platform dir ios-arm64 at /p/lib/ghostty-vt.xcframework/ios-arm64; \
         ghostty emits iOS slices only when the iOS SDK is detected, \
         so install it via Xcode (Settings > Components)"
    );
    assert!(matches!(BuildError::EmptyCpu, BuildError::EmptyCpu));
}
