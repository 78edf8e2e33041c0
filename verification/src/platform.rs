//! The platform query capability: best-effort window-title and
//! executable-version lookups. The concrete per-OS lookups live in the
//! application shell; the library depends only on this interface. The
//! fallback lookups here stand in on platforms without a provider.

use vstd::prelude::*;
use vstd::string::*;

use crate::daw::zero_version;

verus! {

/// Best-effort window-title and executable-version lookups. Absence of a
/// result is normal, not an error, so nothing is promised of the values.
pub trait PlatformQuery {
    /// Best-effort window title of a process; empty when unavailable.
    fn window_title(&self, pid: u32) -> String;

    /// Best-effort version of an executable; the zero sentinel when
    /// unavailable.
    fn process_version(&self, exe_path: &str) -> String;
}

/// Window-title lookup on platforms without a provider: always empty.
pub fn get_window_title(pid: u32) -> (r: String)
    ensures
        r@ == Seq::<char>::empty(),
{
    let _ = pid;
    String::new()
}

/// Version lookup on platforms without a provider: always the zero sentinel.
pub fn get_process_version(exe_path: &str) -> (r: String)
    ensures
        r@ == zero_version(),
{
    let _ = exe_path;
    String::from_str("0.0.0")
}

/// The provider for platforms where no lookup is available: empty titles and
/// the zero version sentinel.
pub struct NullPlatform;

impl PlatformQuery for NullPlatform {
    fn window_title(&self, pid: u32) -> String {
        get_window_title(pid)
    }

    fn process_version(&self, exe_path: &str) -> String {
        get_process_version(exe_path)
    }
}

} // verus!
