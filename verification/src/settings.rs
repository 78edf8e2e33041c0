//! User-configurable settings: what the presence may show and how often the
//! reconciliation loop polls. Reading and writing the settings file is the
//! application shell's job; this module owns the values and their validation.

use vstd::prelude::*;
use vstd::string::*;

verus! {

/// Default poll interval in milliseconds.
pub const DEFAULT_UPDATE_INTERVAL: u64 = 2500;

/// Smallest accepted poll interval in milliseconds.
pub const MIN_UPDATE_INTERVAL: u64 = 1000;

/// Largest accepted poll interval in milliseconds.
pub const MAX_UPDATE_INTERVAL: u64 = 100000000;

/// The default poll interval.
pub fn default_update_interval() -> (r: u64)
    ensures
        r == DEFAULT_UPDATE_INTERVAL,
{
    DEFAULT_UPDATE_INTERVAL
}

/// User-configurable app settings.
pub struct AppSettings {
    /// Replace the project name with a redacted marker.
    pub hide_project_name: bool,
    /// Replace the version/CPU/RAM line with a fixed phrase.
    pub hide_system_usage: bool,
    /// Poll interval of the reconciliation loop, in milliseconds.
    pub update_interval: u64,
}

impl Default for AppSettings {
    /// Settings as they are before the user changes anything.
    fn default() -> (r: Self)
        ensures
            !r.hide_project_name,
            !r.hide_system_usage,
            r.update_interval == DEFAULT_UPDATE_INTERVAL,
    {
        AppSettings { hide_project_name: false, hide_system_usage: false, update_interval: DEFAULT_UPDATE_INTERVAL }
    }
}

impl AppSettings {
    /// Whether `interval` is an acceptable poll interval.
    pub open spec fn interval_in_range(interval: u64) -> bool {
        MIN_UPDATE_INTERVAL <= interval <= MAX_UPDATE_INTERVAL
    }

    /// Set the poll interval; an out-of-range value is rejected and the
    /// previous value kept.
    pub fn set_update_interval(&mut self, interval: u64) -> (r: Result<(), String>)
        ensures
            r is Ok <==> Self::interval_in_range(interval),
            r is Ok ==> final(self).update_interval == interval,
            r matches Err(m) ==> *final(self) == *old(self) && m@
                == "Interval must be between 1000ms and 100000000ms"@,
            final(self).hide_project_name == old(self).hide_project_name,
            final(self).hide_system_usage == old(self).hide_system_usage,
    {
        if interval < MIN_UPDATE_INTERVAL || interval > MAX_UPDATE_INTERVAL {
            return Err(String::from_str("Interval must be between 1000ms and 100000000ms"));
        }
        self.update_interval = interval;
        Ok(())
    }

    /// Toggle project name visibility in the presence.
    pub fn toggle_hide_project_name(&mut self)
        ensures
            final(self).hide_project_name == !old(self).hide_project_name,
            final(self).hide_system_usage == old(self).hide_system_usage,
            final(self).update_interval == old(self).update_interval,
    {
        self.hide_project_name = !self.hide_project_name;
    }

    /// Toggle system usage (CPU/RAM) visibility in the presence.
    pub fn toggle_hide_system_usage(&mut self)
        ensures
            final(self).hide_system_usage == !old(self).hide_system_usage,
            final(self).hide_project_name == old(self).hide_project_name,
            final(self).update_interval == old(self).update_interval,
    {
        self.hide_system_usage = !self.hide_system_usage;
    }
}

} // verus!
