//! Display formatting of the status snapshot.

use dawpresence::daw::DawStatus;

fn status(is_running: bool, cpu_centi: u64, memory_mb: u64) -> DawStatus {
    DawStatus {
        is_running,
        display_name: "REAPER".to_string(),
        project_name: "None".to_string(),
        cpu_centi,
        memory_mb,
        version: "0.0.0".to_string(),
        pid: 1,
        client_id: "111".to_string(),
        hide_version: false,
    }
}

#[test]
fn cpu_usage_renders_two_decimals() {
    assert_eq!(status(true, 1234, 0).cpu_usage_str(), "12.34%");
    assert_eq!(status(true, 5, 0).cpu_usage_str(), "0.05%");
    assert_eq!(status(true, 0, 0).cpu_usage_str(), "0.00%");
    assert_eq!(status(true, 10000, 0).cpu_usage_str(), "100.00%");
}

#[test]
fn ram_usage_renders_whole_megabytes() {
    assert_eq!(status(true, 0, 1024).ram_usage_str(), "1024MB");
    assert_eq!(status(true, 0, 0).ram_usage_str(), "0MB");
}

#[test]
fn stopped_status_renders_undefined() {
    assert_eq!(status(false, 1234, 1024).cpu_usage_str(), "Undefined");
    assert_eq!(status(false, 1234, 1024).ram_usage_str(), "Undefined");
}
