//! Settings validation and the reconciliation tick: published status,
//! change-only notifications, and formatting helpers.

use dawpresence::daw::{format_memory, DawConfig, DawStatus, ProcessRecord};
use dawpresence::discord::{DiscordManager, DiscordPresence, PresencePort};
use dawpresence::platform::PlatformQuery;
use dawpresence::reconcile::{default_status, tick, tray_toggle_text, LoopState};
use dawpresence::settings::AppSettings;
use dawpresence::text::u64_to_string;

#[test]
fn update_interval_bounds_are_enforced() {
    let mut settings = AppSettings::default();
    let rejected = settings.set_update_interval(999);
    assert_eq!(
        rejected.err().unwrap(),
        "Interval must be between 1000ms and 100000000ms"
    );
    assert_eq!(settings.update_interval, 2500);
    assert!(settings.set_update_interval(100000001).is_err());
    assert_eq!(settings.update_interval, 2500);
    assert!(settings.set_update_interval(1000).is_ok());
    assert_eq!(settings.update_interval, 1000);
    assert!(settings.set_update_interval(100000000).is_ok());
    assert_eq!(settings.update_interval, 100000000);
}

#[test]
fn toggles_flip_only_their_own_flag() {
    let mut settings = AppSettings::default();
    settings.toggle_hide_project_name();
    assert!(settings.hide_project_name);
    assert!(!settings.hide_system_usage);
    settings.toggle_hide_system_usage();
    assert!(settings.hide_system_usage);
    settings.toggle_hide_project_name();
    assert!(!settings.hide_project_name);
    assert!(settings.hide_system_usage);
    assert_eq!(settings.update_interval, 2500);
}

#[test]
fn formatting_helpers_render_exact_text() {
    assert_eq!(u64_to_string(0), "0");
    assert_eq!(u64_to_string(2500), "2500");
    assert_eq!(u64_to_string(u64::MAX), "18446744073709551615");
    assert_eq!(format_memory(536870912), "512 MB");
    assert_eq!(format_memory(1610612736), "1.50 GB");
    assert_eq!(tray_toggle_text(true, "Hide Project Name"), "[ON] Hide Project Name");
    assert_eq!(tray_toggle_text(false, "Hide System Usage"), "[OFF] Hide System Usage");
    let status = default_status();
    assert_eq!(status.daw_name, "None");
    assert_eq!(status.cpu_usage, "Undefined");
    assert!(!status.is_connected);
}

struct OkPort {
    opens: usize,
    pushes: usize,
}

impl PresencePort for OkPort {
    fn open(&mut self, _client_id: &str) -> Result<(), String> {
        self.opens += 1;
        Ok(())
    }

    fn reconnect(&mut self) -> Result<(), String> {
        Ok(())
    }

    fn set_activity(&mut self, _presence: &DiscordPresence, _start: i64) -> Result<(), String> {
        self.pushes += 1;
        Ok(())
    }

    fn clear_activity(&mut self) -> Result<(), String> {
        Ok(())
    }

    fn close(&mut self) {}
}

struct TitleProvider;

impl PlatformQuery for TitleProvider {
    fn window_title(&self, _pid: u32) -> String {
        "MySong.rpp - REAPER".to_string()
    }

    fn process_version(&self, _exe_path: &str) -> String {
        "7.0.1".to_string()
    }
}

fn reaper_monitor() -> dawpresence::monitor::DawMonitor {
    dawpresence::monitor::DawMonitor::new(
        vec![DawConfig {
            process_name: "reaper".to_string(),
            display_text: "REAPER".to_string(),
            title_regex: "(.+) - REAPER".to_string(),
            client_id: "111".to_string(),
            hide_version: false,
        }],
        1,
    )
}

fn reaper_record() -> ProcessRecord {
    ProcessRecord {
        name: "reaper".to_string(),
        pid: 10,
        cpu_centi: 500,
        memory_bytes: 64 * 1024 * 1024,
        exe_path: "/usr/bin/reaper".to_string(),
    }
}

#[test]
fn tick_with_no_daw_publishes_default_and_notifies_only_on_transition() {
    let monitor = reaper_monitor();
    let mut state = LoopState::new();
    let mut channel = DiscordManager::new(OkPort { opens: 0, pushes: 0 });
    let settings = AppSettings::default();
    let table: Vec<ProcessRecord> = vec![];

    let report = tick(&mut state, &monitor, &mut channel, &table, &TitleProvider, &settings, 1);
    assert_eq!(report.tray_status, "Open a DAW to begin displaying RPC");
    assert!(report.tray_status_changed);
    assert!(!report.presence_ok);
    assert!(!report.connection_changed);
    assert!(!report.daw_changed);
    assert_eq!(state.published.daw_name, "None");
    assert!(!channel.is_connected());

    let report = tick(&mut state, &monitor, &mut channel, &table, &TitleProvider, &settings, 2);
    assert!(!report.tray_status_changed);
    assert!(!report.connection_changed);
    assert!(!report.daw_changed);
}

#[test]
fn tick_with_daw_publishes_status_and_connects() {
    let monitor = reaper_monitor();
    let mut state = LoopState::new();
    let mut channel = DiscordManager::new(OkPort { opens: 0, pushes: 0 });
    let settings = AppSettings::default();
    let table = vec![reaper_record()];

    let report = tick(&mut state, &monitor, &mut channel, &table, &TitleProvider, &settings, 1);
    assert_eq!(report.tray_status, "Connected to Discord");
    assert!(report.presence_ok);
    assert!(report.connection_changed);
    assert!(report.daw_changed);
    assert!(report.tray_status_changed);
    assert_eq!(state.published.daw_name, "REAPER");
    assert_eq!(state.published.project_name, "MySong.rpp");
    assert_eq!(state.published.cpu_usage, "5.00%");
    assert_eq!(state.published.ram_usage, "64MB");
    assert!(state.published.is_connected);
    assert!(channel.is_connected());
    assert_eq!(channel.port.opens, 1);
    assert_eq!(channel.port.pushes, 1);

    // A second identical tick still pushes — the channel call runs every
    // tick — but raises no notifications.
    let report = tick(&mut state, &monitor, &mut channel, &table, &TitleProvider, &settings, 2);
    assert!(!report.connection_changed);
    assert!(!report.daw_changed);
    assert!(!report.tray_status_changed);
    assert_eq!(channel.port.opens, 1);
    assert_eq!(channel.port.pushes, 2);
}

#[test]
fn tick_transition_from_daw_to_none_disconnects_and_notifies() {
    let monitor = reaper_monitor();
    let mut state = LoopState::new();
    let mut channel = DiscordManager::new(OkPort { opens: 0, pushes: 0 });
    let settings = AppSettings::default();

    let table = vec![reaper_record()];
    let _ = tick(&mut state, &monitor, &mut channel, &table, &TitleProvider, &settings, 1);
    assert!(channel.is_connected());

    let empty: Vec<ProcessRecord> = vec![];
    let report = tick(&mut state, &monitor, &mut channel, &empty, &TitleProvider, &settings, 2);
    assert!(!channel.is_connected());
    assert!(report.connection_changed);
    assert!(report.daw_changed);
    assert!(report.tray_status_changed);
    assert_eq!(report.tray_status, "Open a DAW to begin displaying RPC");
    assert_eq!(state.published.daw_name, "None");
    assert!(!state.published.is_connected);
}

struct FailingPort;

impl PresencePort for FailingPort {
    fn open(&mut self, _client_id: &str) -> Result<(), String> {
        Err("socket missing".to_string())
    }

    fn reconnect(&mut self) -> Result<(), String> {
        Err("socket missing".to_string())
    }

    fn set_activity(&mut self, _presence: &DiscordPresence, _start: i64) -> Result<(), String> {
        Err("socket missing".to_string())
    }

    fn clear_activity(&mut self) -> Result<(), String> {
        Err("socket missing".to_string())
    }

    fn close(&mut self) {}
}

#[test]
fn tick_with_failing_peer_publishes_disconnected_status() {
    let monitor = reaper_monitor();
    let mut state = LoopState::new();
    let mut channel = DiscordManager::new(FailingPort);
    let settings = AppSettings::default();
    let table = vec![reaper_record()];

    let report = tick(&mut state, &monitor, &mut channel, &table, &TitleProvider, &settings, 1);
    assert!(!report.presence_ok);
    assert!(report.tray_status.starts_with("Connection failed: "));
    assert!(report.tray_status.contains("socket missing"));
    assert!(!channel.is_connected());
    assert_eq!(state.published.daw_name, "REAPER");
    assert!(!state.published.is_connected);
}
