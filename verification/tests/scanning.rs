//! Scanning a process-table snapshot against the catalog, and composing the
//! presence text from the resulting status.

use dawpresence::daw::{DawConfig, DawStatus, ProcessRecord};
use dawpresence::discord::DiscordPresence;
use dawpresence::monitor::DawMonitor;
use dawpresence::platform::{NullPlatform, PlatformQuery};
use dawpresence::settings::AppSettings;

fn config(process_name: &str, display_text: &str, title_regex: &str, client_id: &str) -> DawConfig {
    DawConfig {
        process_name: process_name.to_string(),
        display_text: display_text.to_string(),
        title_regex: title_regex.to_string(),
        client_id: client_id.to_string(),
        hide_version: false,
    }
}

fn record(name: &str, pid: u32) -> ProcessRecord {
    ProcessRecord {
        name: name.to_string(),
        pid,
        cpu_centi: 2468,
        memory_bytes: 512 * 1024 * 1024,
        exe_path: format!("/usr/bin/{name}"),
    }
}

fn settings() -> AppSettings {
    AppSettings {
        hide_project_name: false,
        hide_system_usage: false,
        update_interval: 2500,
    }
}

/// A provider with a fixed window title and version.
struct FixedProvider {
    title: String,
    version: String,
}

impl PlatformQuery for FixedProvider {
    fn window_title(&self, _pid: u32) -> String {
        self.title.clone()
    }

    fn process_version(&self, _exe_path: &str) -> String {
        self.version.clone()
    }
}

#[test]
fn no_matching_process_scans_none() {
    let monitor = DawMonitor::new(
        vec![config("reaper", "REAPER", "(.+) - REAPER", "111")],
        2,
    );
    let table = vec![record("chrome", 10), record("bash", 11)];
    assert!(monitor.scan(&table, &NullPlatform, false).is_none());
}

#[test]
fn empty_catalog_scans_none() {
    let monitor = DawMonitor::new(Vec::new(), 2);
    let table = vec![record("reaper", 10)];
    assert!(monitor.scan(&table, &NullPlatform, false).is_none());
}

#[test]
fn first_catalog_entry_wins_over_process_order() {
    let monitor = DawMonitor::new(
        vec![
            config("ableton", "Ableton Live", "(.+?) - Ableton", "222"),
            config("reaper", "REAPER", "(.+) - REAPER", "111"),
        ],
        2,
    );
    // The process matching the later catalog entry comes first in the table:
    // catalog order must still decide.
    let table = vec![record("reaper.exe", 10), record("Ableton.EXE", 11)];
    let status = monitor.scan(&table, &NullPlatform, false).unwrap();
    assert_eq!(status.display_name, "Ableton Live");
    assert_eq!(status.client_id, "222");
    assert_eq!(status.pid, 11);
}

#[test]
fn scan_normalizes_cpu_by_core_count_and_memory_to_mb() {
    let monitor = DawMonitor::new(
        vec![config("reaper", "REAPER", "(.+) - REAPER", "111")],
        2,
    );
    let table = vec![record("reaper", 10)];
    let status = monitor.scan(&table, &NullPlatform, false).unwrap();
    assert!(status.is_running);
    assert_eq!(status.cpu_centi, 1234);
    assert_eq!(status.memory_mb, 512);
    assert_eq!(status.cpu_usage_str(), "12.34%");
    assert_eq!(status.ram_usage_str(), "512MB");
}

#[test]
fn scan_without_provider_yields_sentinels() {
    let monitor = DawMonitor::new(
        vec![config("reaper", "REAPER", "(.+) - REAPER", "111")],
        1,
    );
    let table = vec![record("reaper", 10)];
    let status = monitor.scan(&table, &NullPlatform, false).unwrap();
    assert_eq!(status.project_name, "None");
    assert_eq!(status.version, "0.0.0");
}

#[test]
fn malformed_pattern_degrades_only_that_extraction() {
    let monitor = DawMonitor::new(
        vec![config("reaper", "REAPER", "(", "111")],
        1,
    );
    let provider = FixedProvider {
        title: "MySong.rpp - REAPER".to_string(),
        version: "7.0.1".to_string(),
    };
    let table = vec![record("reaper", 10)];
    let status = monitor.scan(&table, &provider, false).unwrap();
    assert_eq!(status.display_name, "REAPER");
    assert_eq!(status.project_name, "None");
    assert_eq!(status.version, "7.0.1");
}

#[test]
fn first_process_in_table_order_is_selected_for_an_entry() {
    let monitor = DawMonitor::new(
        vec![config("reaper", "REAPER", "(.+) - REAPER", "111")],
        1,
    );
    let table = vec![record("reaper", 10), record("reaper", 11)];
    let status = monitor.scan(&table, &NullPlatform, false).unwrap();
    assert_eq!(status.pid, 10);
}

#[test]
fn hide_project_name_substitutes_redacted_marker() {
    let monitor = DawMonitor::new(
        vec![config("reaper", "REAPER", "(.+) - REAPER", "111")],
        1,
    );
    let provider = FixedProvider {
        title: "MySong.rpp - REAPER".to_string(),
        version: "7.0.1".to_string(),
    };
    let table = vec![record("reaper", 10)];
    let status = monitor.scan(&table, &provider, true).unwrap();
    assert_eq!(status.project_name, "(hidden)");
}

#[test]
fn end_to_end_scan_extracts_project_and_composes_details() {
    let monitor = DawMonitor::new(
        vec![config("reaper", "REAPER", "(.+) - REAPER", "111")],
        2,
    );
    let provider = FixedProvider {
        title: "MySong.rpp - REAPER".to_string(),
        version: "7.0.1".to_string(),
    };
    let table = vec![record("chrome", 9), record("reaper", 10)];
    let status = monitor.scan(&table, &provider, false).unwrap();
    assert_eq!(status.project_name, "MySong.rpp");
    assert_eq!(status.version, "7.0.1");
    let presence = DiscordPresence::from_daw_status(&status, &settings());
    assert_eq!(presence.details, "Opening project: MySong.rpp");
    assert_eq!(presence.state, "v7.0.1, 12.34% CPU, 512MB RAM");
    assert_eq!(presence.large_image, "icon");
}

#[test]
fn sentinel_project_names_compose_the_untitled_phrase() {
    let mut status = sample_status();
    status.project_name = "None".to_string();
    let presence = DiscordPresence::from_daw_status(&status, &settings());
    assert_eq!(presence.details, "Opening an untitled project");

    status.project_name = "Untitled".to_string();
    let presence = DiscordPresence::from_daw_status(&status, &settings());
    assert_eq!(presence.details, "Opening an untitled project");
}

fn sample_status() -> DawStatus {
    DawStatus {
        is_running: true,
        display_name: "REAPER".to_string(),
        project_name: "MySong.rpp".to_string(),
        cpu_centi: 1234,
        memory_mb: 512,
        version: "7.0.1".to_string(),
        pid: 42,
        client_id: "111".to_string(),
        hide_version: false,
    }
}

#[test]
fn hidden_project_composes_as_project_line() {
    let status = sample_status();
    let mut s = settings();
    s.hide_project_name = true;
    let presence = DiscordPresence::from_daw_status(&status, &s);
    assert_eq!(presence.details, "Opening project: (hidden)");
}

#[test]
fn zero_version_and_hidden_version_leave_no_dangling_separator() {
    let mut status = sample_status();
    status.version = "0.0.0".to_string();
    let presence = DiscordPresence::from_daw_status(&status, &settings());
    assert_eq!(presence.state, "12.34% CPU, 512MB RAM");

    let mut status = sample_status();
    status.hide_version = true;
    let presence = DiscordPresence::from_daw_status(&status, &settings());
    assert_eq!(presence.state, "12.34% CPU, 512MB RAM");
}

#[test]
fn hide_system_usage_composes_fixed_phrase() {
    let status = sample_status();
    let mut s = settings();
    s.hide_system_usage = true;
    let presence = DiscordPresence::from_daw_status(&status, &s);
    assert_eq!(presence.state, "Using REAPER");
}
