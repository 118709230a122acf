use axon_desktop::platform::{
    build_download_url, get_archive_extension, get_binary_name, get_latest_release_api_url,
    get_platform_identifier, Arch, Os,
};
use axon_desktop::vercmp::{make_version_info, trim_leading_v, update_available};
use axon_desktop::version::{is_version_token, normalize_tag, parse_version_from_output};

#[test]
fn platform_identifier_supported_pairs_are_nonempty() {
    let supported = [
        (Os::Windows, Arch::X64, "windows-x64"),
        (Os::Windows, Arch::Arm64, "windows-arm64"),
        (Os::MacOs, Arch::X64, "darwin-x64"),
        (Os::MacOs, Arch::Arm64, "darwin-arm64"),
        (Os::Linux, Arch::X64, "linux-x64"),
        (Os::Linux, Arch::Arm64, "linux-arm64"),
    ];
    for (os, arch, expected) in supported {
        let id = get_platform_identifier(os, arch).unwrap();
        assert!(!id.is_empty());
        assert_eq!(id, expected);
    }
}

#[test]
fn platform_identifier_unsupported_pairs_are_none() {
    assert_eq!(get_platform_identifier(Os::Other, Arch::X64), None);
    assert_eq!(get_platform_identifier(Os::Other, Arch::Arm64), None);
    assert_eq!(get_platform_identifier(Os::Windows, Arch::Other), None);
    assert_eq!(get_platform_identifier(Os::MacOs, Arch::Other), None);
    assert_eq!(get_platform_identifier(Os::Linux, Arch::Other), None);
    assert_eq!(get_platform_identifier(Os::Other, Arch::Other), None);
}

#[test]
fn binary_name_per_platform() {
    assert_eq!(get_binary_name(Os::Windows), "opencode.exe");
    assert_eq!(get_binary_name(Os::MacOs), "opencode");
    assert_eq!(get_binary_name(Os::Linux), "opencode");
    assert_eq!(get_archive_extension(), "zip");
}

#[test]
fn download_url_is_deterministic() {
    let url = build_download_url("v1.1.4", Os::MacOs, Arch::Arm64).unwrap();
    assert_eq!(
        url,
        "https://github.com/anomalyco/opencode/releases/download/v1.1.4/opencode-darwin-arm64.zip"
    );
    assert_eq!(build_download_url("v1.1.4", Os::Other, Arch::Arm64), None);
}

#[test]
fn release_api_url_is_fixed() {
    assert_eq!(
        get_latest_release_api_url(),
        "https://api.github.com/repos/anomalyco/opencode/releases/latest"
    );
}

#[test]
fn update_available_uses_semver_ordering() {
    assert!(update_available("v1.0.0", "v1.1.0"));
    assert!(update_available("1.0.0", "v1.0.1"));
    assert!(!update_available("v1.2.0", "v1.2.0"));
    assert!(!update_available("v2.0.0", "v1.9.9"));
    // Tag strings are not ordered like versions: 10 > 9 numerically.
    assert!(update_available("v1.9.0", "v1.10.0"));
    // A pre-release precedes its release.
    assert!(update_available("1.0.0-alpha", "1.0.0"));
    assert!(!update_available("1.0.0", "1.0.0-alpha"));
}

#[test]
fn update_available_falls_back_to_string_inequality() {
    assert!(update_available("vfoo", "v1.0.0"));
    assert!(update_available("v1.0.0", "vbar"));
    assert!(!update_available("vfoo", "vfoo"));
    assert!(!update_available("foo", "vfoo"));
}

#[test]
fn version_info_assembles_the_report() {
    let info = make_version_info(Some("v1.0.0".to_string()), Some("v2.0.0".to_string()));
    assert_eq!(info.installed.as_deref(), Some("v1.0.0"));
    assert_eq!(info.latest.as_deref(), Some("v2.0.0"));
    assert!(info.update_available);

    let info = make_version_info(None, Some("v2.0.0".to_string()));
    assert!(!info.update_available);
    let info = make_version_info(Some("v1.0.0".to_string()), None);
    assert!(!info.update_available);
}

#[test]
fn trim_leading_v_removes_every_leading_v() {
    assert_eq!(trim_leading_v("v1.2.3"), "1.2.3");
    assert_eq!(trim_leading_v("vv1.2.3"), "1.2.3");
    assert_eq!(trim_leading_v("1.2.3"), "1.2.3");
    assert_eq!(trim_leading_v(""), "");
    assert_eq!(trim_leading_v("vvv"), "");
}

#[test]
fn version_token_recognition() {
    assert!(is_version_token("1.2.3"));
    assert!(is_version_token("v0.5.1"));
    assert!(is_version_token("1.2"));
    assert!(is_version_token("1.2.3.4"));
    assert!(!is_version_token("1"));
    assert!(!is_version_token("one.two"));
    assert!(!is_version_token(""));
    assert!(!is_version_token("v"));
}

#[test]
fn parse_version_from_output_finds_first_token() {
    assert_eq!(
        parse_version_from_output("opencode 0.5.1\n").as_deref(),
        Some("v0.5.1")
    );
    assert_eq!(parse_version_from_output("v1.2.3").as_deref(), Some("v1.2.3"));
    assert_eq!(
        parse_version_from_output("build 7 version 1.0.0 and 2.0.0").as_deref(),
        Some("v1.0.0")
    );
    assert_eq!(parse_version_from_output("no version here"), None);
    assert_eq!(parse_version_from_output(""), None);
    assert_eq!(parse_version_from_output("   \n\t "), None);
}

#[test]
fn parse_version_keeps_an_existing_v_prefix() {
    assert_eq!(parse_version_from_output("vv1.0.0").as_deref(), Some("vv1.0.0"));
    assert_eq!(normalize_tag("1.0.0"), "v1.0.0");
    assert_eq!(normalize_tag("v1.0.0"), "v1.0.0");
}
