//! The DAW catalog and status data model: catalog entries, the plain view of
//! a live process, the point-in-time status snapshot, process-name
//! normalization, and the display formatting of resource usage.

use vstd::prelude::*;
use vstd::string::*;

use crate::text::{
    dec_digits, lower_of, lowercase, trim_spec, trim_str, two_digits, u64_to_string,
    u64_to_two_digits,
};

verus! {

/// One catalog entry: a recognizable process identity and its display
/// metadata.
pub struct DawConfig {
    /// Case-insensitive identity key; a trailing executable suffix is ignored.
    pub process_name: String,
    /// Human-readable name shown in the presence.
    pub display_text: String,
    /// Pattern used to extract the project name from the window title;
    /// capture group 1 is preferred over the whole match.
    pub title_regex: String,
    /// Identity of the broadcast channel this entry publishes to.
    pub client_id: String,
    /// Suppress the version part of the presence for this entry.
    pub hide_version: bool,
}

/// A live process as the library sees it: plain values sampled from the
/// process table by the application shell.
pub struct ProcessRecord {
    /// Executable name as reported by the process table.
    pub name: String,
    /// Process id.
    pub pid: u32,
    /// Instantaneous CPU sample in hundredths of a percent, not yet
    /// normalized by core count.
    pub cpu_centi: u64,
    /// Resident memory in bytes.
    pub memory_bytes: u64,
    /// Path of the executable, empty when unknown.
    pub exe_path: String,
}

/// Point-in-time status of a detected DAW, produced once per poll.
pub struct DawStatus {
    /// Whether a recognized DAW was found.
    pub is_running: bool,
    /// Display name from the matched catalog entry.
    pub display_name: String,
    /// Extracted project name, or a sentinel.
    pub project_name: String,
    /// CPU usage in hundredths of a percent, normalized by core count.
    pub cpu_centi: u64,
    /// Memory usage truncated to whole megabytes.
    pub memory_mb: u64,
    /// Version string, "0.0.0" when unavailable.
    pub version: String,
    /// Process id of the matched process.
    pub pid: u32,
    /// Broadcast channel of the matched catalog entry.
    pub client_id: String,
    /// Whether the version is suppressed for this entry.
    pub hide_version: bool,
}

/// Whether `t` ends in the executable suffix ".exe".
pub open spec fn ends_with_exe(t: Seq<char>) -> bool {
    &&& t.len() >= 4
    &&& t[t.len() - 4] == '.'
    &&& t[t.len() - 3] == 'e'
    &&& t[t.len() - 2] == 'x'
    &&& t[t.len() - 1] == 'e'
}

/// `t` with one trailing ".exe" suffix removed.
pub open spec fn strip_exe(t: Seq<char>) -> Seq<char> {
    if ends_with_exe(t) {
        t.subrange(0, t.len() - 4)
    } else {
        t
    }
}

/// The normal form under which process names are compared: trimmed,
/// lowercased, one trailing executable suffix stripped.
pub open spec fn normalize_spec(s: Seq<char>) -> Seq<char> {
    strip_exe(lower_of(trim_spec(s)))
}

/// Normalize a process name for comparison.
pub fn normalize_process_name(name: &str) -> (r: String)
    ensures
        r@ == normalize_spec(name@),
{
    let trimmed = trim_str(name);
    let lowered = lowercase(trimmed);
    let n = lowered.as_str().unicode_len();
    if n >= 4 && lowered.as_str().get_char(n - 4) == '.' && lowered.as_str().get_char(n - 3) == 'e'
        && lowered.as_str().get_char(n - 2) == 'x' && lowered.as_str().get_char(n - 1) == 'e' {
        let stripped = lowered.as_str().substring_char(0, n - 4);
        String::from_str(stripped)
    } else {
        lowered
    }
}

/// Whether a process matches a catalog entry: their normalized names are
/// equal.
pub open spec fn name_matches(config: DawConfig, rec: ProcessRecord) -> bool {
    normalize_spec(rec.name@) == normalize_spec(config.process_name@)
}

/// The sentinel version string standing for "unknown".
pub open spec fn zero_version() -> Seq<char> {
    "0.0.0"@
}

/// CPU usage in hundredths of a percent rendered as "12.34%".
pub open spec fn cpu_str_spec(cpu_centi: u64) -> Seq<char> {
    dec_digits((cpu_centi / 100) as nat) + "."@ + two_digits((cpu_centi % 100) as nat) + "%"@
}

/// Memory in whole megabytes rendered as "1024MB".
pub open spec fn ram_str_spec(memory_mb: u64) -> Seq<char> {
    dec_digits(memory_mb as nat) + "MB"@
}

/// The CPU display text of a status: its usage, or "Undefined" when no DAW
/// is running.
pub open spec fn cpu_display(st: DawStatus) -> Seq<char> {
    if st.is_running {
        cpu_str_spec(st.cpu_centi)
    } else {
        "Undefined"@
    }
}

/// The RAM display text of a status: its usage, or "Undefined" when no DAW
/// is running.
pub open spec fn ram_display(st: DawStatus) -> Seq<char> {
    if st.is_running {
        ram_str_spec(st.memory_mb)
    } else {
        "Undefined"@
    }
}

impl DawStatus {
    /// Format CPU usage for display (e.g., "12.34%"), or "Undefined" when no
    /// DAW is running.
    pub fn cpu_usage_str(&self) -> (r: String)
        ensures
            r@ == cpu_display(*self),
    {
        if self.is_running {
            let mut s = u64_to_string(self.cpu_centi / 100);
            s.append(".");
            let frac = u64_to_two_digits(self.cpu_centi % 100);
            s.append(frac.as_str());
            s.append("%");
            s
        } else {
            String::from_str("Undefined")
        }
    }

    /// Format RAM usage for display (e.g., "1024MB"), or "Undefined" when no
    /// DAW is running.
    pub fn ram_usage_str(&self) -> (r: String)
        ensures
            r@ == ram_display(*self),
    {
        if self.is_running {
            let mut s = u64_to_string(self.memory_mb);
            s.append("MB");
            s
        } else {
            String::from_str("Undefined")
        }
    }
}

/// Bytes rendered for display: "512 MB" below one gigabyte, else "1.50 GB"
/// with two decimals (both truncated).
pub open spec fn format_memory_spec(bytes: u64) -> Seq<char> {
    let mb = bytes / 1048576;
    if mb >= 1024 {
        let gb_centi = mb * 100 / 1024;
        dec_digits((gb_centi / 100) as nat) + "."@ + two_digits((gb_centi % 100) as nat) + " GB"@
    } else {
        dec_digits(mb as nat) + " MB"@
    }
}

/// Format a byte count for display in megabytes or gigabytes.
pub fn format_memory(bytes: u64) -> (r: String)
    ensures
        r@ == format_memory_spec(bytes),
{
    let mb = bytes / 1048576;
    if mb >= 1024 {
        let gb_centi = mb * 100 / 1024;
        let mut s = u64_to_string(gb_centi / 100);
        s.append(".");
        let frac = u64_to_two_digits(gb_centi % 100);
        s.append(frac.as_str());
        s.append(" GB");
        s
    } else {
        let mut s = u64_to_string(mb);
        s.append(" MB");
        s
    }
}

} // verus!
