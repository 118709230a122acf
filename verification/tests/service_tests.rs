use axon_desktop::api::ApiResponse;
use axon_desktop::notify::StatusChannel;
use axon_desktop::config_file::{
    build_opencode_config, plan_config_write, plugin_file_url, ConfigWritePlan,
};
use axon_desktop::paths::{
    choose_binary_path, get_archive_path, get_bin_dir, get_cache_dir, get_opencode_bin_path,
    get_opencode_config_dir, get_opencode_config_file, get_plugin_dist_path,
    get_version_cache_path,
};
use axon_desktop::platform::Os;
use axon_desktop::lifecycle::{InitAction, StartAction, StopAction, UpdateAction};
use axon_desktop::platform::Arch;
use axon_desktop::service::{InitializePlan, OpencodeService, StartPlan};
use axon_desktop::strutil::{parse_u64_digits, u16_to_string, u64_to_string};
use axon_desktop::types::{
    DownloadProgress, OpencodeError, ServiceConfig, ServiceMode, ServiceStatus,
};

#[test]
fn paths_derive_from_the_application_data_root() {
    assert_eq!(get_bin_dir("/data"), "/data/bin");
    assert_eq!(get_opencode_bin_path("/data", Os::Linux), "/data/bin/opencode");
    assert_eq!(get_opencode_bin_path("/data", Os::Windows), "/data/bin/opencode.exe");
    assert_eq!(get_archive_path("/data"), "/data/bin/opencode.zip");
    assert_eq!(get_version_cache_path("/data"), "/data/version_cache.json");
    assert_eq!(get_cache_dir("/data"), "/data/cache");
    assert_eq!(get_opencode_config_dir("/data"), "/data/opencode");
    assert_eq!(get_opencode_config_file("/data"), "/data/opencode/opencode.json");
    assert_eq!(
        get_plugin_dist_path("/data"),
        "/data/opencode/plugins/opencode/dist/index.js"
    );
}

#[test]
fn custom_binary_path_overrides_when_present() {
    let custom = "/custom/opencode".to_string();
    assert_eq!(
        choose_binary_path(Some(&custom), true, "/data/bin/opencode", true),
        Some("/custom/opencode".to_string())
    );
    // A custom path that does not exist falls back to the installed one.
    assert_eq!(
        choose_binary_path(Some(&custom), false, "/data/bin/opencode", true),
        Some("/data/bin/opencode".to_string())
    );
    // An empty custom path never overrides.
    let empty = String::new();
    assert_eq!(
        choose_binary_path(Some(&empty), true, "/data/bin/opencode", true),
        Some("/data/bin/opencode".to_string())
    );
    assert_eq!(choose_binary_path(None, false, "/data/bin/opencode", false), None);
}

#[test]
fn decimal_rendering_and_parsing() {
    assert_eq!(u64_to_string(0), "0");
    assert_eq!(u64_to_string(12345), "12345");
    assert_eq!(u64_to_string(u64::MAX), "18446744073709551615");
    assert_eq!(u16_to_string(8080), "8080");
    assert_eq!(parse_u64_digits("0"), Some(0));
    assert_eq!(parse_u64_digits("0042"), Some(42));
    assert_eq!(parse_u64_digits(""), None);
    assert_eq!(parse_u64_digits("12a"), None);
    assert_eq!(parse_u64_digits("-1"), None);
    assert_eq!(parse_u64_digits("18446744073709551615"), Some(u64::MAX));
    assert_eq!(parse_u64_digits("18446744073709551616"), None);
}

#[test]
fn progress_percentage_is_zero_without_a_total() {
    let p = DownloadProgress::new(1000, None);
    assert_eq!(p.percentage, 0);
    let p = DownloadProgress::new(50, Some(200));
    assert_eq!(p.percentage, 25);
    let p = DownloadProgress::new(200, Some(200));
    assert_eq!(p.percentage, 100);
    // Never above 100, even when more arrived than was announced.
    let p = DownloadProgress::new(300, Some(200));
    assert_eq!(p.percentage, 100);
    let p = DownloadProgress::new(0, Some(0));
    assert_eq!(p.percentage, 0);
}

#[test]
fn error_messages_carry_their_taxonomy() {
    let e = OpencodeError::DownloadError { message: "stream interrupted".to_string() };
    assert_eq!(e.message(), "Failed to download opencode: stream interrupted");
    assert_eq!(OpencodeError::BinaryNotFound.message(), "Binary not found at expected path");
    let e = OpencodeError::ConfigError { message: "unsupported platform".to_string() };
    assert_eq!(e.message(), "Invalid configuration: unsupported platform");
    let e = OpencodeError::ExtractError { message: "tar extraction failed".to_string() };
    assert_eq!(e.message(), "Failed to extract archive: tar extraction failed");
}

#[test]
fn supervisor_defaults_and_configuration() {
    let mut svc = OpencodeService::new();
    let cfg = svc.get_config();
    assert_eq!(cfg.mode, ServiceMode::Local);
    assert_eq!(cfg.port, 0);
    assert!(cfg.auto_start);

    svc.set_config(ServiceConfig { mode: ServiceMode::Local, port: 9000, auto_start: false });
    assert_eq!(svc.get_config().port, 9000);
    svc.set_mode(ServiceMode::Remote { url: "http://far:1".to_string() });
    assert_eq!(svc.get_config().mode, ServiceMode::Remote { url: "http://far:1".to_string() });
    assert_eq!(svc.get_config().port, 9000);
}

#[test]
fn status_updates_are_broadcast_and_replayed_on_attach() {
    let mut svc = OpencodeService::new();
    // With nobody attached a transition is delivered to no one, without
    // error.
    assert_eq!(svc.update_status(ServiceStatus::Ready), 0);
    // A late consumer gets the most recent status replayed.
    assert_eq!(svc.attach_observer(), ServiceStatus::Ready);
    assert_eq!(svc.update_status(ServiceStatus::Starting), 1);
    assert_eq!(svc.attach_observer(), ServiceStatus::Starting);
    assert_eq!(svc.update_status(ServiceStatus::Stopped), 2);
}

#[test]
fn stale_status_is_corrected_only_with_a_determinable_port() {
    let mut svc = OpencodeService::new();
    svc.set_config(ServiceConfig { mode: ServiceMode::Local, port: 8080, auto_start: true });
    svc.update_status(ServiceStatus::Stopped);
    // The process is alive and the port is fixed: corrected to Running.
    assert_eq!(svc.get_status(true), ServiceStatus::Running { port: 8080 });

    // With a dynamic port nothing trustworthy can be reported: the stale
    // status is left as it is rather than guessing.
    let mut svc = OpencodeService::new();
    svc.update_status(ServiceStatus::Stopped);
    assert_eq!(svc.get_status(true), ServiceStatus::Stopped);

    // A dead process corrects nothing.
    let mut svc = OpencodeService::new();
    svc.set_config(ServiceConfig { mode: ServiceMode::Local, port: 8080, auto_start: true });
    svc.update_status(ServiceStatus::Ready);
    assert_eq!(svc.get_status(false), ServiceStatus::Ready);

    // An Error status is never opportunistically corrected.
    let mut svc = OpencodeService::new();
    svc.set_config(ServiceConfig { mode: ServiceMode::Local, port: 8080, auto_start: true });
    svc.update_status(ServiceStatus::Error { message: "boom".to_string() });
    assert_eq!(svc.get_status(true), ServiceStatus::Error { message: "boom".to_string() });
}

#[test]
fn endpoint_follows_mode_and_status() {
    let mut svc = OpencodeService::new();
    assert_eq!(svc.get_endpoint(), None);
    svc.update_status(ServiceStatus::Running { port: 4096 });
    assert_eq!(svc.get_endpoint(), Some("http://127.0.0.1:4096".to_string()));
    svc.set_mode(ServiceMode::Remote { url: "http://far:9999".to_string() });
    assert_eq!(svc.get_endpoint(), Some("http://far:9999".to_string()));
    svc.update_status(ServiceStatus::Stopped);
    assert_eq!(svc.get_endpoint(), None);
}

#[test]
fn fresh_config_file_contains_the_server_block() {
    let s = build_opencode_config(4096, None);
    assert_eq!(
        s,
        "{\"$schema\":\"https://opencode.ai/config.json\",\"server\":{\"port\":4096,\
         \"hostname\":\"127.0.0.1\"},\"autoupdate\":false,\"share\":\"disabled\"}"
    );
    let s = build_opencode_config(1, Some("file:///data/plugin.js"));
    assert_eq!(
        s,
        "{\"$schema\":\"https://opencode.ai/config.json\",\"server\":{\"port\":1,\
         \"hostname\":\"127.0.0.1\"},\"autoupdate\":false,\"share\":\"disabled\",\
         \"plugin\":[\"file:///data/plugin.js\"]}"
    );
}

#[test]
fn plugin_urls_use_forward_slashes() {
    assert_eq!(
        plugin_file_url("C:\\data\\plugins\\index.js"),
        "file://C:/data/plugins/index.js"
    );
    assert_eq!(plugin_file_url("/data/plugins/index.js"), "file:///data/plugins/index.js");
}

#[test]
fn existing_config_is_patched_not_rewritten() {
    match plan_config_write(true, 4096, None) {
        ConfigWritePlan::PatchExisting { port } => assert_eq!(port, 4096),
        other => panic!("unexpected plan: {:?}", other),
    }
    match plan_config_write(false, 4096, None) {
        ConfigWritePlan::WriteFresh { content } => {
            assert!(content.contains("\"port\":4096"));
        }
        other => panic!("unexpected plan: {:?}", other),
    }
}

#[test]
fn api_response_envelopes() {
    let r: ApiResponse<u32> = ApiResponse::success(7);
    assert!(r.success);
    assert_eq!(r.data, Some(7));
    assert_eq!(r.error, None);
    let r: ApiResponse<u32> = ApiResponse::error("no such agent".to_string());
    assert!(!r.success);
    assert_eq!(r.data, None);
    assert_eq!(r.error, Some("no such agent".to_string()));
}

#[test]
fn supervisor_plans_initialize_per_mode() {
    let svc = OpencodeService::new();
    match svc.begin_initialize(Os::Linux, Arch::X64) {
        InitializePlan::Install { action, .. } => assert_eq!(action, InitAction::CheckBinary),
        other => panic!("unexpected plan: {:?}", other),
    }

    let mut svc = OpencodeService::new();
    svc.set_mode(ServiceMode::Remote { url: "http://far:9".to_string() });
    match svc.begin_initialize(Os::Linux, Arch::X64) {
        InitializePlan::ProbeRemote { url } => assert_eq!(url, "http://far:9"),
        other => panic!("unexpected plan: {:?}", other),
    }
    // A reachable remote instance makes the service Ready.
    assert!(svc.complete_remote_initialize(Ok(())).is_ok());
    assert_eq!(svc.get_status(false), ServiceStatus::Ready);
    // A failed probe is surfaced and the status left alone.
    let err = OpencodeError::ConnectionError { message: "no route".to_string() };
    assert_eq!(svc.complete_remote_initialize(Err(err.clone())), Err(err));
    assert_eq!(svc.get_status(false), ServiceStatus::Ready);
}

#[test]
fn supervisor_plans_start_per_mode() {
    let svc = OpencodeService::new();
    match svc.begin_start(Os::Linux) {
        StartPlan::Local { flow, action } => {
            assert_eq!(flow.requested_port, 0);
            assert_eq!(action, StartAction::BindEphemeralPort);
        }
        other => panic!("unexpected plan: {:?}", other),
    }

    let mut svc = OpencodeService::new();
    svc.set_config(ServiceConfig {
        mode: ServiceMode::Remote { url: "http://far:9".to_string() },
        port: 9999,
        auto_start: false,
    });
    match svc.begin_start(Os::Linux) {
        StartPlan::ProbeRemote { url } => assert_eq!(url, "http://far:9"),
        other => panic!("unexpected plan: {:?}", other),
    }
    assert!(svc.complete_remote_start(Ok(())).is_ok());
    assert_eq!(svc.get_status(false), ServiceStatus::Running { port: 9999 });
}

#[test]
fn supervisor_stop_without_a_process_reemits_stopped() {
    let svc = OpencodeService::new();
    let (_, action, emitted) = svc.begin_stop(Os::Linux);
    assert_eq!(action, StopAction::FinishStop);
    assert_eq!(emitted, Some(ServiceStatus::Stopped));

    let mut svc = OpencodeService::new();
    svc.set_process(Some(4242));
    let (_, action, emitted) = svc.begin_stop(Os::Windows);
    assert_eq!(action, StopAction::KillProcessTree { pid: 4242 });
    assert_eq!(emitted, None);
}

#[test]
fn supervisor_update_records_the_running_state() {
    let mut svc = OpencodeService::new();
    svc.update_status(ServiceStatus::Running { port: 8080 });
    let (flow, action) = svc.begin_update(Os::Linux, Arch::X64);
    assert!(flow.was_running);
    assert_eq!(action, UpdateAction::RunStop);

    let mut svc = OpencodeService::new();
    svc.update_status(ServiceStatus::Stopped);
    let (flow, _) = svc.begin_update(Os::Linux, Arch::X64);
    assert!(!flow.was_running);
}

#[test]
fn progress_events_are_transient_and_delivered_to_subscribers() {
    let mut svc = OpencodeService::new();
    let report = DownloadProgress::new(10, Some(100));
    assert_eq!(svc.emit_download_progress(&report), 0);
    svc.attach_observer();
    svc.attach_observer();
    assert_eq!(svc.emit_download_progress(&report), 2);
    // Progress is never replayed; only the status is.
    assert_eq!(svc.attach_observer(), ServiceStatus::Uninitialized);
}

#[test]
fn running_port_detection_refuses_to_guess() {
    let mut svc = OpencodeService::new();
    assert_eq!(svc.detect_running_port(), None);
    svc.set_config(ServiceConfig { mode: ServiceMode::Local, port: 8080, auto_start: true });
    assert_eq!(svc.detect_running_port(), Some(8080));
    svc.update_status(ServiceStatus::Running { port: 4096 });
    assert_eq!(svc.detect_running_port(), Some(4096));
}

#[test]
fn channel_tolerates_detach_of_nobody() {
    let mut ch = StatusChannel::new();
    ch.detach();
    assert_eq!(ch.subscribers, 0);
    ch.attach();
    ch.attach();
    ch.detach();
    assert_eq!(ch.subscribers, 1);
    assert_eq!(ch.publish(ServiceStatus::Ready), 1);
    assert_eq!(ch.last, ServiceStatus::Ready);
}
