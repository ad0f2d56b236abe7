//! Building the engine with zig.
use vstd::prelude::*;
use vstd::string::*;

use crate::native::link::{has_requested_library, LinkMode};
use crate::native::xcframework::ios_xcframework_platform;
use crate::text::{contains, same_text};

verus! {

/// Why a build is refused. Paths are held as they are shown.
#[derive(Debug)]
pub enum BuildError {
    /// The source directory that was given has no `build.zig`.
    MissingBuildFile { dir: String },
    /// The CPU model that was given is empty.
    EmptyCpu,
    /// iOS is built on macOS only.
    IosHost { target: String, host: String },
    /// iOS is linked statically only.
    IosLinkMode { target: String },
    /// The package directory that was given is empty.
    EmptySystemDir,
    /// The package directory that was given does not exist.
    MissingSystemDir { dir: String },
    /// The build left no library of the kind that was asked for.
    MissingLibrary { mode: LinkMode, dirs: String },
    /// The build left no header.
    MissingHeader { path: String },
    /// The xcframework has no slice for the platform.
    MissingPlatform { platform: String, dir: String },
    /// The platform's slice has no library.
    MissingStaticLibrary { path: String },
    /// The patch is not there.
    MissingPatch { path: String },
    /// A command could not be started.
    NotExecuted { context: String, error: String },
    /// A command failed.
    CommandFailed { context: String, status: String },
}

/// The content of a [`BuildError`].
pub enum Refusal {
    MissingBuildFile { dir: Seq<char> },
    EmptyCpu,
    IosHost { target: Seq<char>, host: Seq<char> },
    IosLinkMode { target: Seq<char> },
    EmptySystemDir,
    MissingSystemDir { dir: Seq<char> },
    MissingLibrary { mode: LinkMode, dirs: Seq<char> },
    MissingHeader { path: Seq<char> },
    MissingPlatform { platform: Seq<char>, dir: Seq<char> },
    MissingStaticLibrary { path: Seq<char> },
    MissingPatch { path: Seq<char> },
    NotExecuted { context: Seq<char>, error: Seq<char> },
    CommandFailed { context: Seq<char>, status: Seq<char> },
}

impl View for BuildError {
    type V = Refusal;

    open spec fn view(&self) -> Refusal {
        match self {
            BuildError::MissingBuildFile { dir } => Refusal::MissingBuildFile { dir: dir@ },
            BuildError::EmptyCpu => Refusal::EmptyCpu,
            BuildError::IosHost { target, host } => Refusal::IosHost {
                target: target@,
                host: host@,
            },
            BuildError::IosLinkMode { target } => Refusal::IosLinkMode { target: target@ },
            BuildError::EmptySystemDir => Refusal::EmptySystemDir,
            BuildError::MissingSystemDir { dir } => Refusal::MissingSystemDir { dir: dir@ },
            BuildError::MissingLibrary { mode, dirs } => Refusal::MissingLibrary {
                mode: *mode,
                dirs: dirs@,
            },
            BuildError::MissingHeader { path } => Refusal::MissingHeader { path: path@ },
            BuildError::MissingPlatform { platform, dir } => Refusal::MissingPlatform {
                platform: platform@,
                dir: dir@,
            },
            BuildError::MissingStaticLibrary { path } => Refusal::MissingStaticLibrary {
                path: path@,
            },
            BuildError::MissingPatch { path } => Refusal::MissingPatch { path: path@ },
            BuildError::NotExecuted { context, error } => Refusal::NotExecuted {
                context: context@,
                error: error@,
            },
            BuildError::CommandFailed { context, status } => Refusal::CommandFailed {
                context: context@,
                status: status@,
            },
        }
    }
}

/// The text of a refusal.
pub open spec fn refusal_text(r: Refusal) -> Seq<char> {
    match r {
        Refusal::MissingBuildFile { dir } => "GHOSTTY_SOURCE_DIR does not contain build.zig: "@
            + dir,
        Refusal::EmptyCpu => "LIBGHOSTTY_VT_SYS_CPU must not be empty when set"@,
        Refusal::IosHost { target, host } => "building for "@ + target
            + " requires a macOS host with Xcode and the iOS SDK (ghostty's emit-xcframework path runs host-native); host is "@
            + host,
        Refusal::IosLinkMode { target } => "building for "@ + target
            + " supports static linking only; enable the link-static feature"@,
        Refusal::EmptySystemDir => "GHOSTTY_ZIG_SYSTEM_DIR must not be empty when set"@,
        Refusal::MissingSystemDir { dir } => "GHOSTTY_ZIG_SYSTEM_DIR does not exist: "@ + dir,
        Refusal::MissingLibrary { mode, dirs } => "expected libghostty-vt "@
            + crate::native::link::kind_text(mode) + " in one of "@ + dirs,
        Refusal::MissingHeader { path } => "expected header at "@ + path,
        Refusal::MissingPlatform { platform, dir } => "expected xcframework platform dir "@
            + platform + " at "@ + dir
            + "; ghostty emits iOS slices only when the iOS SDK is detected, so install it via Xcode (Settings > Components)"@,
        Refusal::MissingStaticLibrary { path } => "expected static lib at "@ + path,
        Refusal::MissingPatch { path } => "missing wrap spacer-head dirty patch at "@ + path,
        Refusal::NotExecuted { context, error } => "failed to execute "@ + context + ": "@ + error,
        Refusal::CommandFailed { context, status } => context + " failed with status "@ + status,
    }
}

impl BuildError {
    /// The text of this error.
    pub fn message(&self) -> (s: String)
        ensures
            s@ == refusal_text(self@),
    {
        let mut s: String = String::new();
        match self {
            BuildError::MissingBuildFile { dir } => {
                s.append("GHOSTTY_SOURCE_DIR does not contain build.zig: ");
                s.append(dir.as_str());
            },
            BuildError::EmptyCpu => {
                s.append("LIBGHOSTTY_VT_SYS_CPU must not be empty when set");
            },
            BuildError::IosHost { target, host } => {
                s.append("building for ");
                s.append(target.as_str());
                s.append(
                    " requires a macOS host with Xcode and the iOS SDK (ghostty's emit-xcframework path runs host-native); host is ",
                );
                s.append(host.as_str());
            },
            BuildError::IosLinkMode { target } => {
                s.append("building for ");
                s.append(target.as_str());
                s.append(" supports static linking only; enable the link-static feature");
            },
            BuildError::EmptySystemDir => {
                s.append("GHOSTTY_ZIG_SYSTEM_DIR must not be empty when set");
            },
            BuildError::MissingSystemDir { dir } => {
                s.append("GHOSTTY_ZIG_SYSTEM_DIR does not exist: ");
                s.append(dir.as_str());
            },
            BuildError::MissingLibrary { mode, dirs } => {
                s.append("expected libghostty-vt ");
                s.append(mode.artifact_kind());
                s.append(" in one of ");
                s.append(dirs.as_str());
            },
            BuildError::MissingHeader { path } => {
                s.append("expected header at ");
                s.append(path.as_str());
            },
            BuildError::MissingPlatform { platform, dir } => {
                s.append("expected xcframework platform dir ");
                s.append(platform.as_str());
                s.append(" at ");
                s.append(dir.as_str());
                s.append(
                    "; ghostty emits iOS slices only when the iOS SDK is detected, so install it via Xcode (Settings > Components)",
                );
            },
            BuildError::MissingStaticLibrary { path } => {
                s.append("expected static lib at ");
                s.append(path.as_str());
            },
            BuildError::MissingPatch { path } => {
                s.append("missing wrap spacer-head dirty patch at ");
                s.append(path.as_str());
            },
            BuildError::NotExecuted { context, error } => {
                s.append("failed to execute ");
                s.append(context.as_str());
                s.append(": ");
                s.append(error.as_str());
            },
            BuildError::CommandFailed { context, status } => {
                s.append(context.as_str());
                s.append(" failed with status ");
                s.append(status.as_str());
            },
        }
        assert(s@ =~= refusal_text(self@));
        s
    }
}

/// How a command ended: `Err` where it could not be started, else whether it
/// succeeded and its status as it is shown.
pub fn run(context: &str, ended: Result<(bool, String), String>) -> (r: Result<(), BuildError>)
    ensures
        match ended {
            Err(error) => r matches Err(e) && e@ == (Refusal::NotExecuted {
                context: context@,
                error: error@,
            }),
            Ok((success, status)) => if success {
                r is Ok
            } else {
                r matches Err(e) && e@ == (Refusal::CommandFailed {
                    context: context@,
                    status: status@,
                })
            },
        },
{
    match ended {
        Err(error) => Err(BuildError::NotExecuted { context: context.to_owned(), error }),
        Ok((success, status)) => if success {
            Ok(())
        } else {
            Err(BuildError::CommandFailed { context: context.to_owned(), status })
        },
    }
}

/// Decides where the source comes from: the directory that was given, which has
/// to hold a `build.zig`, or (`false`) the pinned commit.
pub fn source_dir(given: Option<&str>, has_build_file: bool) -> (r: Result<bool, BuildError>)
    ensures
        match given {
            None => r == Ok::<bool, BuildError>(false),
            Some(dir) => if has_build_file {
                r == Ok::<bool, BuildError>(true)
            } else {
                r matches Err(e) && e@ == (Refusal::MissingBuildFile { dir: dir@ })
            },
        },
{
    match given {
        None => Ok(false),
        Some(dir) => if has_build_file {
            Ok(true)
        } else {
            Err(BuildError::MissingBuildFile { dir: dir.to_owned() })
        },
    }
}

/// An argument of zig: text, or a path that the caller knows.
#[derive(Debug)]
pub enum ZigArg {
    Text(String),
    /// The directory that the build installs into.
    InstallPrefix,
    /// The build's cache.
    CacheDir,
    /// The directory of packages fetched ahead of time.
    SystemDir,
    /// The cache shared by builds.
    GlobalCacheDir,
}

/// What a [`ZigArg`] stands for.
pub enum ZigWord {
    Text(Seq<char>),
    InstallPrefix,
    CacheDir,
    SystemDir,
    GlobalCacheDir,
}

impl View for ZigArg {
    type V = ZigWord;

    open spec fn view(&self) -> ZigWord {
        match self {
            ZigArg::Text(s) => ZigWord::Text(s@),
            ZigArg::InstallPrefix => ZigWord::InstallPrefix,
            ZigArg::CacheDir => ZigWord::CacheDir,
            ZigArg::SystemDir => ZigWord::SystemDir,
            ZigArg::GlobalCacheDir => ZigWord::GlobalCacheDir,
        }
    }
}

/// What the arguments of a command stand for.
pub open spec fn words(args: Seq<ZigArg>) -> Seq<ZigWord> {
    args.map_values(|a: ZigArg| a@)
}

/// What a build is asked for.
pub struct BuildRequest {
    pub link_mode: LinkMode,
    /// The target triple, and that of the machine that builds.
    pub target: String,
    pub host: String,
    /// zig's optimization mode.
    pub optimize: String,
    /// zig's name for the target.
    pub zig_target: String,
    /// The CPU model, where one was given.
    pub cpu: Option<String>,
    /// The directory of packages fetched ahead of time, where one was given, and
    /// whether it exists.
    pub system_dir: Option<(String, bool)>,
}

impl BuildRequest {
    /// The target is an iOS device or simulator.
    pub open spec fn ios(self) -> bool {
        crate::native::xcframework::platform_of(self.target@) is Some
    }

    /// The CPU model to build for. Without one, zig would build for the machine
    /// that it runs on.
    pub open spec fn model(self) -> Seq<char> {
        match self.cpu {
            Some(cpu) => cpu@,
            None => "baseline"@,
        }
    }

    /// Why the build is refused, if it is; what stands first counts.
    pub open spec fn refusal(self) -> Option<Refusal> {
        if self.model().len() == 0 {
            Some(Refusal::EmptyCpu)
        } else if self.ios() && !crate::text::occurs_in("apple-darwin"@, self.host@) {
            Some(Refusal::IosHost { target: self.target@, host: self.host@ })
        } else if self.ios() && self.link_mode != LinkMode::Static {
            Some(Refusal::IosLinkMode { target: self.target@ })
        } else {
            match self.system_dir {
                Some((dir, exists)) => if dir@.len() == 0 {
                    Some(Refusal::EmptySystemDir)
                } else if !exists {
                    Some(Refusal::MissingSystemDir { dir: dir@ })
                } else {
                    None
                },
                None => None,
            }
        }
    }

    /// The arguments that every build has.
    pub open spec fn common_words(self) -> Seq<ZigWord> {
        seq![
            ZigWord::Text("build"@),
            ZigWord::Text("-Demit-lib-vt=true"@),
            ZigWord::Text("-Doptimize="@ + self.optimize@),
            ZigWord::Text("-Dcpu="@ + self.model()),
            ZigWord::Text(
                if self.ios() {
                    "-Demit-xcframework=true"@
                } else {
                    "-Demit-xcframework=false"@
                },
            ),
            ZigWord::Text("-Dapp-runtime=none"@),
            ZigWord::Text("--prefix"@),
            ZigWord::InstallPrefix,
            ZigWord::Text("--cache-dir"@),
            ZigWord::CacheDir,
        ]
    }

    /// The arguments for packages fetched ahead of time.
    pub open spec fn system_words(self) -> Seq<ZigWord> {
        if self.system_dir is Some {
            seq![
                ZigWord::Text("--system"@),
                ZigWord::SystemDir,
                ZigWord::Text("--global-cache-dir"@),
                ZigWord::GlobalCacheDir,
            ]
        } else {
            Seq::empty()
        }
    }

    /// The argument for another target than the host. iOS has none: the
    /// xcframework is built natively.
    pub open spec fn target_words(self) -> Seq<ZigWord> {
        if self.target@ != self.host@ && !self.ios() {
            seq![ZigWord::Text("-Dtarget="@ + self.zig_target@)]
        } else {
            Seq::empty()
        }
    }

    /// All arguments of zig.
    pub open spec fn zig_words(self) -> Seq<ZigWord> {
        self.common_words() + self.system_words() + self.target_words()
    }
}

/// A text made of two parts.
fn joined(head: &str, tail: &str) -> (s: String)
    ensures
        s@ == head@ + tail@,
{
    let mut s: String = head.to_owned();
    s.append(tail);
    s
}

/// Adds one argument.
fn push_text(args: &mut Vec<ZigArg>, text: String)
    ensures
        words(final(args)@) == words(old(args)@).push(ZigWord::Text(text@)),
{
    args.push(ZigArg::Text(text));
    assert(words(args@) =~= words(old(args)@).push(ZigWord::Text(text@)));
}

/// Adds one path.
fn push_path(args: &mut Vec<ZigArg>, path: ZigArg)
    ensures
        words(final(args)@) == words(old(args)@).push(path@),
{
    args.push(path);
    assert(words(args@) =~= words(old(args)@).push(path@));
}

/// Decides how zig is called, or why it is not.
pub fn zig_build(request: &BuildRequest) -> (r: Result<Vec<ZigArg>, BuildError>)
    ensures
        match request.refusal() {
            Some(refusal) => r matches Err(e) && e@ == refusal,
            None => r matches Ok(args) && words(args@) == request.zig_words(),
        },
{
    let cpu: String = match &request.cpu {
        Some(cpu) => cpu.clone(),
        None => {
            proof {
                reveal_strlit("baseline");
            }
            "baseline".to_owned()
        },
    };
    if same_text(cpu.as_str(), "") {
        proof {
            reveal_strlit("");
        }
        return Err(BuildError::EmptyCpu);
    }
    proof {
        reveal_strlit("");
        assert(cpu@.len() == 0 ==> cpu@ =~= ""@);
    }
    let ios: bool = ios_xcframework_platform(request.target.as_str()).is_some();
    if ios {
        if !contains(request.host.as_str(), "apple-darwin") {
            return Err(
                BuildError::IosHost { target: request.target.clone(), host: request.host.clone() },
            );
        }
        match request.link_mode {
            LinkMode::Static => {},
            LinkMode::Dynamic => {
                return Err(BuildError::IosLinkMode { target: request.target.clone() });
            },
        }
    }
    let mut args: Vec<ZigArg> = Vec::new();
    push_text(&mut args, "build".to_owned());
    push_text(&mut args, "-Demit-lib-vt=true".to_owned());
    push_text(&mut args, joined("-Doptimize=", request.optimize.as_str()));
    push_text(&mut args, joined("-Dcpu=", cpu.as_str()));
    push_text(
        &mut args,
        if ios {
            "-Demit-xcframework=true".to_owned()
        } else {
            "-Demit-xcframework=false".to_owned()
        },
    );
    push_text(&mut args, "-Dapp-runtime=none".to_owned());
    push_text(&mut args, "--prefix".to_owned());
    push_path(&mut args, ZigArg::InstallPrefix);
    push_text(&mut args, "--cache-dir".to_owned());
    push_path(&mut args, ZigArg::CacheDir);
    assert(words(args@) =~= request.common_words());
    if let Some((dir, exists)) = &request.system_dir {
        if same_text(dir.as_str(), "") {
            return Err(BuildError::EmptySystemDir);
        }
        assert(dir@.len() == 0 ==> dir@ =~= ""@);
        if !*exists {
            return Err(BuildError::MissingSystemDir { dir: dir.clone() });
        }
        push_text(&mut args, "--system".to_owned());
        push_path(&mut args, ZigArg::SystemDir);
        push_text(&mut args, "--global-cache-dir".to_owned());
        push_path(&mut args, ZigArg::GlobalCacheDir);
    }
    assert(words(args@) =~= request.common_words() + request.system_words());
    if !same_text(request.target.as_str(), request.host.as_str()) && !ios {
        push_text(&mut args, joined("-Dtarget=", request.zig_target.as_str()));
    }
    assert(words(args@) =~= request.zig_words());
    Ok(args)
}

/// What a build left: the files in the searched directories, the directories as
/// they are shown, and the header.
pub struct BuildProduct {
    /// Names of the files; those that are not text are `None`.
    pub files: Vec<Option<String>>,
    pub dirs: String,
    pub header: String,
    pub header_exists: bool,
}

/// Decides whether a build left what was asked for: the library first, then the
/// header.
pub fn check_product(link_mode: LinkMode, target: &str, product: &BuildProduct) -> (r: Result<
    (),
    BuildError,
>)
    ensures
        ({
            let found = exists|i: int|
                0 <= i < product.files@.len() && (#[trigger] product.files@[i] matches Some(name)
                    && crate::native::link::is_library(link_mode, target@, name@));
            if !found {
                r matches Err(e) && e@ == (Refusal::MissingLibrary {
                    mode: link_mode,
                    dirs: product.dirs@,
                })
            } else if !product.header_exists {
                r matches Err(e) && e@ == (Refusal::MissingHeader { path: product.header@ })
            } else {
                r is Ok
            }
        }),
{
    if !has_requested_library(link_mode, target, &product.files) {
        return Err(BuildError::MissingLibrary { mode: link_mode, dirs: product.dirs.clone() });
    }
    if !product.header_exists {
        return Err(BuildError::MissingHeader { path: product.header.clone() });
    }
    Ok(())
}

/// The line that has cargo search a directory for the library.
pub fn search_line(dir: &str) -> (s: String)
    ensures
        s@ == "cargo:rustc-link-search=native="@ + dir@,
{
    joined("cargo:rustc-link-search=native=", dir)
}

/// The line that has cargo link the shared library; there is none for a static
/// build, whose line depends on the target.
pub fn dynamic_link_line(link_mode: LinkMode) -> (r: Option<&'static str>)
    ensures
        match link_mode {
            LinkMode::Dynamic => r matches Some(s) && s@
                == "cargo:rustc-link-lib=dylib=ghostty-vt"@,
            LinkMode::Static => r is None,
        },
{
    match link_mode {
        LinkMode::Dynamic => Some("cargo:rustc-link-lib=dylib=ghostty-vt"),
        LinkMode::Static => None,
    }
}

/// A native build never names a target, and an iOS build never does.
pub proof fn law_native_builds_name_no_target(request: BuildRequest)
    ensures
        request.target@ == request.host@ ==> request.target_words() == Seq::<ZigWord>::empty(),
        request.ios() ==> request.target_words() == Seq::<ZigWord>::empty(),
{
}

/// A build that is not refused for iOS links statically on macOS.
pub proof fn law_ios_builds_are_static_on_macos(request: BuildRequest)
    requires
        request.ios(),
        request.refusal() is None,
    ensures
        request.link_mode == LinkMode::Static,
        crate::text::occurs_in("apple-darwin"@, request.host@),
{
}

/// The text of an error names what was found: the paths, target, host, command and
/// status that the error holds.
pub proof fn law_errors_say_what_was_found(e: BuildError, s: String)
    requires
        call_ensures(BuildError::message, (&e,), s),
    ensures
        e matches BuildError::MissingBuildFile { dir } ==> s@
            == "GHOSTTY_SOURCE_DIR does not contain build.zig: "@ + dir@,
        e is EmptyCpu ==> s@ == "LIBGHOSTTY_VT_SYS_CPU must not be empty when set"@,
        e matches BuildError::IosHost { target, host } ==> s@ == "building for "@ + target@
            + " requires a macOS host with Xcode and the iOS SDK (ghostty's emit-xcframework path runs host-native); host is "@
            + host@,
        e matches BuildError::IosLinkMode { target } ==> s@ == "building for "@ + target@
            + " supports static linking only; enable the link-static feature"@,
        e is EmptySystemDir ==> s@ == "GHOSTTY_ZIG_SYSTEM_DIR must not be empty when set"@,
        e matches BuildError::MissingSystemDir { dir } ==> s@
            == "GHOSTTY_ZIG_SYSTEM_DIR does not exist: "@ + dir@,
        e matches BuildError::MissingLibrary { mode, dirs } ==> s@ == "expected libghostty-vt "@
            + (if mode == LinkMode::Static {
            "static library"@
        } else {
            "shared library"@
        }) + " in one of "@ + dirs@,
        e matches BuildError::MissingHeader { path } ==> s@ == "expected header at "@ + path@,
        e matches BuildError::MissingPlatform { platform, dir } ==> s@
            == "expected xcframework platform dir "@ + platform@ + " at "@ + dir@
            + "; ghostty emits iOS slices only when the iOS SDK is detected, so install it via Xcode (Settings > Components)"@,
        e matches BuildError::MissingStaticLibrary { path } ==> s@ == "expected static lib at "@
            + path@,
        e matches BuildError::MissingPatch { path } ==> s@
            == "missing wrap spacer-head dirty patch at "@ + path@,
        e matches BuildError::NotExecuted { context, error } ==> s@ == "failed to execute "@
            + context@ + ": "@ + error@,
        e matches BuildError::CommandFailed { context, status } ==> s@ == context@
            + " failed with status "@ + status@,
{
}

/// A command went well exactly where it was started and succeeded; the error tells
/// which of the two it was, with the command's own words.
pub proof fn law_commands_have_to_succeed(
    context: &str,
    ended: Result<(bool, String), String>,
    r: Result<(), BuildError>,
)
    requires
        call_ensures(run, (context, ended), r),
    ensures
        r is Ok <==> (ended matches Ok((success, status)) && success),
        ended matches Err(error) ==> (r matches Err(BuildError::NotExecuted { context: c, error: e })
            && c@ == context@ && e@ == error@),
        ended matches Ok((success, status)) ==> !success ==> (r matches Err(
            BuildError::CommandFailed { context: c, status: t },
        ) && c@ == context@ && t@ == status@),
{
}

/// A directory that was given is taken exactly where it holds a build file; without
/// one that was given, the pinned commit is.
pub proof fn law_given_directories_hold_a_build_file(
    given: Option<&str>,
    has_build_file: bool,
    r: Result<bool, BuildError>,
)
    requires
        call_ensures(source_dir, (given, has_build_file), r),
    ensures
        r is Err <==> given is Some && !has_build_file,
        r matches Ok(taken) ==> (taken <==> given is Some),
        r matches Err(e) ==> e matches BuildError::MissingBuildFile { dir } && dir@ == given->0@,
{
}

/// zig is called exactly where a CPU model that was given is not empty, an iOS build
/// is linked statically on macOS, and a package directory that was given is there
/// and not empty.
pub proof fn law_builds_are_refused_for_a_reason(
    request: BuildRequest,
    target: &str,
    host: &str,
    platform: Option<&'static str>,
    macos: bool,
    r: Result<Vec<ZigArg>, BuildError>,
)
    requires
        target@ == request.target@,
        host@ == request.host@,
        call_ensures(ios_xcframework_platform, (target,), platform),
        call_ensures(contains, (host, "apple-darwin"), macos),
        call_ensures(zig_build, (&request,), r),
    ensures
        r is Ok <==> {
            &&& request.cpu is Some ==> request.cpu->0@.len() > 0
            &&& platform is Some ==> macos && request.link_mode == LinkMode::Static
            &&& request.system_dir matches Some((dir, exists)) ==> dir@.len() > 0 && exists
        },
        r matches Err(e) ==> {
            let no_cpu = request.cpu is Some && request.cpu->0@.len() == 0;
            let no_mac = platform is Some && !macos;
            let no_archive = platform is Some && request.link_mode == LinkMode::Dynamic;
            &&& e is EmptyCpu <==> no_cpu
            &&& e is IosHost <==> !no_cpu && no_mac
            &&& e is IosLinkMode <==> !no_cpu && !no_mac && no_archive
            &&& e is EmptySystemDir <==> !no_cpu && !no_mac && !no_archive && (
            request.system_dir matches Some((dir, exists)) && dir@.len() == 0)
            &&& e is MissingSystemDir <==> !no_cpu && !no_mac && !no_archive && (
            request.system_dir matches Some((dir, exists)) && dir@.len() > 0 && !exists)
            &&& e matches BuildError::IosHost { target: t, host: h } ==> t@ == target@ && h@
                == host@
            &&& e matches BuildError::IosLinkMode { target: t } ==> t@ == target@
            &&& e matches BuildError::MissingSystemDir { dir: d } ==> (
            request.system_dir matches Some((dir, exists)) && d@ == dir@)
        },
{
    reveal_strlit("baseline");
}

/// zig is told everything that was asked for: the optimization mode, the CPU model
/// or the baseline, whether the xcframework is emitted, which is where the target is
/// iOS, and the directories; packages fetched ahead of time where there are any; and
/// last the target, where it is another than the host and not iOS.
pub proof fn law_zig_is_told_what_was_asked_for(
    request: BuildRequest,
    target: &str,
    platform: Option<&'static str>,
    r: Result<Vec<ZigArg>, BuildError>,
)
    requires
        target@ == request.target@,
        call_ensures(ios_xcframework_platform, (target,), platform),
        call_ensures(zig_build, (&request,), r),
        r is Ok,
    ensures
        ({
            let args = r->Ok_0@;
            let packages: int = if request.system_dir is Some {
                4
            } else {
                0
            };
            let cross: int = if request.target@ != request.host@ && platform is None {
                1
            } else {
                0
            };
            &&& args.len() == 10 + packages + cross
            &&& args[0] matches ZigArg::Text(s) && s@ == "build"@
            &&& args[1] matches ZigArg::Text(s) && s@ == "-Demit-lib-vt=true"@
            &&& args[2] matches ZigArg::Text(s) && s@ == "-Doptimize="@ + request.optimize@
            &&& args[3] matches ZigArg::Text(s) && s@ == "-Dcpu="@ + (match request.cpu {
                Some(cpu) => cpu@,
                None => "baseline"@,
            })
            &&& args[4] matches ZigArg::Text(s) && s@ == (if platform is Some {
                "-Demit-xcframework=true"@
            } else {
                "-Demit-xcframework=false"@
            })
            &&& args[5] matches ZigArg::Text(s) && s@ == "-Dapp-runtime=none"@
            &&& args[6] matches ZigArg::Text(s) && s@ == "--prefix"@
            &&& args[7] is InstallPrefix
            &&& args[8] matches ZigArg::Text(s) && s@ == "--cache-dir"@
            &&& args[9] is CacheDir
            &&& packages == 4 ==> {
                &&& args[10] matches ZigArg::Text(s) && s@ == "--system"@
                &&& args[11] is SystemDir
                &&& args[12] matches ZigArg::Text(s) && s@ == "--global-cache-dir"@
                &&& args[13] is GlobalCacheDir
            }
            &&& cross == 1 ==> (args.last() matches ZigArg::Text(s) && s@ == "-Dtarget="@
                + request.zig_target@)
        }),
{
    let args = r->Ok_0@;
    let told = words(args);
    assert(told.len() == args.len());
    assert forall|i: int| 0 <= i < args.len() implies #[trigger] args[i]@ == told[i] by {}
    let common = request.common_words();
    let system = request.system_words();
    assert(told == common + system + request.target_words());
    assert(common.len() == 10);
    assert(args[0]@ == common[0]);
    assert(args[1]@ == common[1]);
    assert(args[2]@ == common[2]);
    assert(args[3]@ == common[3]);
    assert(args[4]@ == common[4]);
    assert(args[5]@ == common[5]);
    assert(args[6]@ == common[6]);
    assert(args[7]@ == common[7]);
    assert(args[8]@ == common[8]);
    assert(args[9]@ == common[9]);
    if request.system_dir is Some {
        assert(args[10]@ == system[0]);
        assert(args[11]@ == system[1]);
        assert(args[12]@ == system[2]);
        assert(args[13]@ == system[3]);
    }
    if request.target@ != request.host@ && platform is None {
        assert(told.last() == request.target_words()[0]);
        assert(args.last()@ == told.last());
    }
}

/// A build left what was asked for exactly where the library is found and the
/// header is there; the library is missed first.
pub proof fn law_products_have_library_and_header(
    mode: LinkMode,
    target: &str,
    product: BuildProduct,
    found: bool,
    r: Result<(), BuildError>,
)
    requires
        call_ensures(has_requested_library, (mode, target, &product.files), found),
        call_ensures(check_product, (mode, target, &product), r),
    ensures
        r is Ok <==> found && product.header_exists,
        !found ==> (r matches Err(BuildError::MissingLibrary { mode: m, dirs }) && m == mode
            && dirs@ == product.dirs@),
        found && !product.header_exists ==> (r matches Err(BuildError::MissingHeader { path })
            && path@ == product.header@),
{
}

/// The directory is searched, and a shared library, but no static one, is linked by
/// a line of its own.
pub proof fn law_link_lines_name_the_library(
    dir: &str,
    s: String,
    mode: LinkMode,
    r: Option<&'static str>,
)
    requires
        call_ensures(search_line, (dir,), s),
        call_ensures(dynamic_link_line, (mode,), r),
    ensures
        s@ == "cargo:rustc-link-search=native="@ + dir@,
        r is Some <==> mode == LinkMode::Dynamic,
        r matches Some(line) ==> line@ == "cargo:rustc-link-lib=dylib=ghostty-vt"@,
{
}

} // verus!
