//! Builds for iOS, which take the library out of an xcframework.
use vstd::prelude::*;
use vstd::string::*;

use crate::native::vendored::BuildError;
use crate::text::same_text;

verus! {

/// The platform directory inside the xcframework for an iOS target.
pub open spec fn platform_of(target: Seq<char>) -> Option<Seq<char>> {
    if target == "aarch64-apple-ios"@ {
        Some("ios-arm64"@)
    } else if target == "aarch64-apple-ios-sim"@ {
        Some("ios-arm64-simulator"@)
    } else {
        None
    }
}

/// The platform directory inside the xcframework for an iOS target, or `None`
/// for targets that are built directly. There is no simulator library for x86-64.
pub fn ios_xcframework_platform(target: &str) -> (r: Option<&'static str>)
    ensures
        match r {
            Some(p) => platform_of(target@) == Some(p@),
            None => platform_of(target@) is None,
        },
{
    if same_text(target, "aarch64-apple-ios") {
        Some("ios-arm64")
    } else if same_text(target, "aarch64-apple-ios-sim") {
        Some("ios-arm64-simulator")
    } else {
        None
    }
}

/// What is there of the xcframework after a build, with the paths as they are
/// shown in messages.
pub struct Slice {
    /// The platform's directory.
    pub platform: String,
    pub dir: String,
    pub dir_exists: bool,
    /// The platform's static library.
    pub library: String,
    pub library_exists: bool,
    /// The platform has headers of its own.
    pub headers_exist: bool,
}

/// Decides whether the library can be taken out of the xcframework, and whether
/// the platform's headers replace the others.
pub fn extract_xcframework_lib(slice: &Slice) -> (r: Result<bool, BuildError>)
    ensures
        match r {
            Ok(copy_headers) => slice.dir_exists && slice.library_exists && copy_headers
                == slice.headers_exist,
            Err(e) => if !slice.dir_exists {
                e@ == (crate::native::vendored::Refusal::MissingPlatform {
                    platform: slice.platform@,
                    dir: slice.dir@,
                })
            } else {
                !slice.library_exists && e@ == (crate::native::vendored::Refusal::MissingStaticLibrary {
                    path: slice.library@,
                })
            },
        },
{
    if !slice.dir_exists {
        return Err(
            BuildError::MissingPlatform {
                platform: slice.platform.clone(),
                dir: slice.dir.clone(),
            },
        );
    }
    if !slice.library_exists {
        return Err(BuildError::MissingStaticLibrary { path: slice.library.clone() });
    }
    Ok(slice.headers_exist)
}

/// Devices and simulators with an ARM processor are the iOS targets, each with a
/// directory of its own.
pub proof fn law_ios_targets_have_directories(target: &str, r: Option<&'static str>)
    requires
        call_ensures(ios_xcframework_platform, (target,), r),
    ensures
        r is Some <==> target@ == "aarch64-apple-ios"@ || target@ == "aarch64-apple-ios-sim"@,
        target@ == "aarch64-apple-ios"@ ==> r->0@ == "ios-arm64"@,
        target@ == "aarch64-apple-ios-sim"@ ==> r->0@ == "ios-arm64-simulator"@,
{
    reveal_strlit("aarch64-apple-ios");
    reveal_strlit("aarch64-apple-ios-sim");
    assert("aarch64-apple-ios"@.len() == 17);
    assert("aarch64-apple-ios-sim"@.len() == 21);
}

/// A library can be taken out exactly where both it and its directory are there;
/// the directory is missed first. The headers go along where there are any.
pub proof fn law_libraries_are_taken_from_their_directory(
    slice: Slice,
    r: Result<bool, BuildError>,
)
    requires
        call_ensures(extract_xcframework_lib, (&slice,), r),
    ensures
        r is Ok <==> slice.dir_exists && slice.library_exists,
        r matches Ok(headers) ==> headers == slice.headers_exist,
        !slice.dir_exists ==> (r matches Err(BuildError::MissingPlatform { platform, dir })
            && platform@ == slice.platform@ && dir@ == slice.dir@),
        slice.dir_exists && !slice.library_exists ==> (r matches Err(
            BuildError::MissingStaticLibrary { path },
        ) && path@ == slice.library@),
{
}

} // verus!
