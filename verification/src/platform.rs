//! Platform resolution: maps the host (OS, CPU architecture) pair to the
//! release-artifact identifier and the expected executable name, and builds
//! the fixed release-index and download URLs.

use vstd::prelude::*;
use vstd::string::StringExecFns;

verus! {

/// Operating system of the host, as far as release artifacts distinguish it.
#[derive(Clone, Copy, Debug, PartialEq, Eq, Structural)]
pub enum Os {
    Windows,
    MacOs,
    Linux,
    Other,
}

/// CPU architecture of the host, as far as release artifacts distinguish it.
#[derive(Clone, Copy, Debug, PartialEq, Eq, Structural)]
pub enum Arch {
    X64,
    Arm64,
    Other,
}

/// The (OS, architecture) pairs a release artifact is published for.
pub open spec fn platform_supported(os: Os, arch: Arch) -> bool {
    (os is Windows || os is MacOs || os is Linux) && (arch is X64 || arch is Arm64)
}

/// The artifact identifier of a supported platform.
pub open spec fn spec_platform_identifier(os: Os, arch: Arch) -> Seq<char> {
    match (os, arch) {
        (Os::Windows, Arch::X64) => "windows-x64"@,
        (Os::Windows, Arch::Arm64) => "windows-arm64"@,
        (Os::MacOs, Arch::X64) => "darwin-x64"@,
        (Os::MacOs, Arch::Arm64) => "darwin-arm64"@,
        (Os::Linux, Arch::X64) => "linux-x64"@,
        (Os::Linux, Arch::Arm64) => "linux-arm64"@,
        _ => Seq::empty(),
    }
}

/// Resolve the artifact identifier for a platform.  Supported pairs yield a
/// non-empty identifier; every other pair yields nothing, so callers fail
/// fast with a configuration error rather than attempting a download.
pub fn get_platform_identifier(os: Os, arch: Arch) -> (r: Option<&'static str>)
    ensures
        r is Some <==> platform_supported(os, arch),
        r matches Some(id) ==> id@ == spec_platform_identifier(os, arch) && id@.len() > 0,
{
    proof {
        reveal_strlit("windows-x64");
        reveal_strlit("windows-arm64");
        reveal_strlit("darwin-x64");
        reveal_strlit("darwin-arm64");
        reveal_strlit("linux-x64");
        reveal_strlit("linux-arm64");
    }
    match (os, arch) {
        (Os::Windows, Arch::X64) => Some("windows-x64"),
        (Os::Windows, Arch::Arm64) => Some("windows-arm64"),
        (Os::MacOs, Arch::X64) => Some("darwin-x64"),
        (Os::MacOs, Arch::Arm64) => Some("darwin-arm64"),
        (Os::Linux, Arch::X64) => Some("linux-x64"),
        (Os::Linux, Arch::Arm64) => Some("linux-arm64"),
        _ => None,
    }
}

/// Archive extension of every release artifact; the download URL is built
/// with a fixed extension, while extraction is dispatched per platform.
pub fn get_archive_extension() -> (r: &'static str)
    ensures
        r@ == "zip"@,
{
    "zip"
}

/// The executable name expected inside the archive.
pub open spec fn spec_binary_name(os: Os) -> Seq<char> {
    if os is Windows {
        "opencode.exe"@
    } else {
        "opencode"@
    }
}

/// Name of the managed executable on the given platform.
pub fn get_binary_name(os: Os) -> (r: &'static str)
    ensures
        r@ == spec_binary_name(os),
{
    match os {
        Os::Windows => "opencode.exe",
        _ => "opencode",
    }
}

/// The download URL of the artifact for a version tag on a supported platform.
pub open spec fn spec_download_url(version: Seq<char>, os: Os, arch: Arch) -> Seq<char> {
    "https://github.com/anomalyco/opencode/releases/download/"@ + version + "/opencode-"@
        + spec_platform_identifier(os, arch) + "."@ + "zip"@
}

/// Build the download URL for a version tag; nothing for an unsupported
/// platform.
pub fn build_download_url(version: &str, os: Os, arch: Arch) -> (r: Option<String>)
    ensures
        r is Some <==> platform_supported(os, arch),
        r matches Some(url) ==> url@ == spec_download_url(version@, os, arch),
{
    let platform = get_platform_identifier(os, arch);
    match platform {
        Some(id) => {
            let mut url = String::from_str("https://github.com/anomalyco/opencode/releases/download/");
            url.append(version);
            url.append("/opencode-");
            url.append(id);
            url.append(".");
            url.append(get_archive_extension());
            Some(url)
        },
        None => None,
    }
}

/// The well-known endpoint that reports the latest release.
pub fn get_latest_release_api_url() -> (r: &'static str)
    ensures
        r@ == "https://api.github.com/repos/anomalyco/opencode/releases/latest"@,
{
    "https://api.github.com/repos/anomalyco/opencode/releases/latest"
}

} // verus!
