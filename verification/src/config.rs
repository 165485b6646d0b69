use vstd::prelude::*;
use crate::browser_path::Os;

verus! {

/// Seconds a blocking probe or network operation may take before it is
/// abandoned; the only bound on a stuck call.
pub const DEFAULT_TIMEOUT_SECS: u64 = 120;

/// The resolution parameters a manager instance owns: immutable by
/// default, replaced wholesale between resolutions, never mutated
/// concurrently.
#[derive(Debug, Clone)]
pub struct ManagerConfig {
    /// Canonical browser name.
    pub browser_name: String,
    /// Canonical driver name.
    pub driver_name: String,
    /// Requested browser version; empty means "whatever is installed".
    pub browser_version: String,
    /// Requested driver version; empty means "resolve it".
    pub driver_version: String,
    /// The operating system the resolution runs on.
    pub os: Os,
    /// Timeout, in seconds, for blocking probe and network operations.
    pub timeout_secs: u64,
    /// Proxy URL for HTTP operations; empty means none.
    pub proxy: String,
    /// Base directory of the driver download cache; empty means unset.
    pub cache_root: String,
    /// When set, no network operation may be attempted at all.
    pub offline: bool,
}

impl ManagerConfig {
    /// The default configuration for one browser/driver pair.  This
    /// adapter family targets browsers installed on macOS, so that is the
    /// default operating system.
    pub fn default(browser_name: &str, driver_name: &str) -> (r: ManagerConfig)
        ensures
            r.browser_name@ == browser_name@,
            r.driver_name@ == driver_name@,
            r.browser_version@.len() == 0,
            r.driver_version@.len() == 0,
            r.os == Os::MacOs,
            r.timeout_secs == DEFAULT_TIMEOUT_SECS,
            r.proxy@.len() == 0,
            r.cache_root@.len() == 0,
            !r.offline,
    {
        ManagerConfig {
            browser_name: browser_name.to_owned(),
            driver_name: driver_name.to_owned(),
            browser_version: String::new(),
            driver_version: String::new(),
            os: Os::MacOs,
            timeout_secs: DEFAULT_TIMEOUT_SECS,
            proxy: String::new(),
            cache_root: String::new(),
            offline: false,
        }
    }
}

} // verus!
