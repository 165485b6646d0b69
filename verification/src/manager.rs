use vstd::prelude::*;
use crate::browser_path::{BrowserPath, Os, PathTable, ReleaseChannel};
use crate::config::ManagerConfig;
use crate::errors::{unavailable_download, ResolverError};
use crate::http::create_http_client;
use crate::logger::Logger;
use crate::version::{
    discover_version_from_probe, discovery_fails, trimmed, version_like, BinaryProbe,
    ResolvedVersion,
};

verus! {

// The manager facade: the uniform capability set every browser adapter
// implements, and the fixed resolution sequence the engine runs over it.
// An adapter whose browser has no online distribution channel answers
// every online operation with one shared `DownloadUnavailable` fallback,
// immediately and without touching the network, so callers can tell
// "this will never work for this browser" from "try again later".

/// Whether a result is the uniform unavailable-download failure for the
/// given driver.
pub open spec fn unavailable_for<T>(r: Result<T, ResolverError>, driver: Seq<char>) -> bool {
    r matches Err(e) && e matches ResolverError::DownloadUnavailable(d) && d@ == driver
}

/// The polymorphic contract every browser adapter implements.  The
/// variants form a closed set, one per supported browser, selected at
/// startup by canonical identity.
pub trait SeleniumManager: Sized {
    /// Canonical browser identity.
    spec fn spec_browser_name(&self) -> Seq<char>;

    /// Canonical driver identity.
    spec fn spec_driver_name(&self) -> Seq<char>;

    /// Whether the browser/driver has an online distribution channel at
    /// all.  When it has none, every online operation fails uniformly
    /// with `DownloadUnavailable` instead of attempting a network call.
    spec fn spec_online_available(&self) -> bool;

    /// Whether the driver ships bundled with the OS or browser, with no
    /// independent download or version negotiation.
    spec fn spec_bundled_driver(&self) -> bool;

    /// Where the driver binary is expected once resolved; for a bundled
    /// driver a fixed, OS-defined location rather than a cache entry.
    spec fn spec_driver_cache_location(&self) -> Seq<char>;

    /// The platform label used in download URLs and cache paths.
    spec fn spec_platform_label(&self) -> Seq<char>;

    /// The pairs the browser's path table supports.
    spec fn spec_path_table_contains(&self, key: BrowserPath) -> bool;

    /// The installed-binary path of a supported pair.
    spec fn spec_path_table_path(&self, key: BrowserPath) -> Seq<char>;

    /// The manager's current configuration.
    spec fn spec_config(&self) -> ManagerConfig;

    /// The names searched for in OS process or installation listings;
    /// the default is the singleton of the canonical browser name.
    spec fn spec_names_in_path(&self) -> Seq<Seq<char>>;

    /// The HTTP client this instance exclusively owns.
    spec fn spec_http_client(&self) -> reqwest::Client;

    /// The diagnostic sink this instance owns.
    spec fn spec_logger(&self) -> Logger;

    /// Canonical identity string of the browser.
    fn get_browser_name(&self) -> (r: &str)
        ensures
            r@ == self.spec_browser_name(),
    ;

    /// The names to search for in OS process or installation listings;
    /// by default just the canonical name.
    fn get_browser_names_in_path(&self) -> (r: Vec<&str>)
        ensures
            r@.len() == self.spec_names_in_path().len(),
            forall|i: int|
                0 <= i < r@.len() ==> (#[trigger] r@[i])@ == self.spec_names_in_path()[i],
            self.spec_names_in_path().len() >= 1,
            self.spec_names_in_path()[0] == self.spec_browser_name(),
    ;

    /// The HTTP client this instance exclusively owns.
    fn get_http_client(&self) -> (r: &reqwest::Client)
        ensures
            *r == self.spec_http_client(),
    ;

    /// Replaces the owned HTTP client and nothing else.
    fn set_http_client(&mut self, http_client: reqwest::Client)
        ensures
            final(self).spec_browser_name() == old(self).spec_browser_name(),
            final(self).spec_driver_name() == old(self).spec_driver_name(),
            final(self).spec_online_available() == old(self).spec_online_available(),
            final(self).spec_bundled_driver() == old(self).spec_bundled_driver(),
            final(self).spec_driver_cache_location() == old(self).spec_driver_cache_location(),
            final(self).spec_platform_label() == old(self).spec_platform_label(),
            final(self).spec_names_in_path() == old(self).spec_names_in_path(),
            final(self).spec_http_client() == http_client,
            final(self).spec_config() == old(self).spec_config(),
            final(self).spec_logger() == old(self).spec_logger(),
    ;

    /// The browser's path table: at most one installed-binary path per
    /// (operating system, release channel) pair; an absent pair means the
    /// channel is unsupported there.
    fn get_browser_path_map(&self) -> (r: PathTable)
        ensures
            r.wf(),
            forall|k: BrowserPath| #[trigger]
                r.spec_contains(k) == self.spec_path_table_contains(k),
            forall|k: BrowserPath| #[trigger]
                r.spec_contains(k) ==> r.spec_path(k) == self.spec_path_table_path(k),
    ;

    /// Interprets a read-only probe of the installed browser binary.  An
    /// absent binary is an absent version (`Ok(None)`), never an error; a
    /// binary whose version cannot be read is a discovery failure.  No
    /// network is touched.
    fn discover_browser_version(&mut self, probe: &BinaryProbe) -> (r: Result<
        Option<String>,
        ResolverError,
    >)
        ensures
            *final(self) == *old(self),
            match probe {
                BinaryProbe::Missing => r matches Ok(v) && v is None,
                BinaryProbe::VersionOutput(out) => {
                    &&& version_like(trimmed(out@)) ==> (r matches Ok(v) && v matches Some(ver)
                        && ver@ == trimmed(out@))
                    &&& !version_like(trimmed(out@)) ==> (r matches Err(e) && e matches
                        ResolverError::VersionDiscoveryFailed(_))
                },
                BinaryProbe::Unreadable(_) => r matches Err(e) && e matches
                    ResolverError::VersionDiscoveryFailed(_),
            },
    ;

    /// Canonical identity string of the driver.
    fn get_driver_name(&self) -> (r: &str)
        ensures
            r@ == self.spec_driver_name(),
    ;

    /// Resolves the target driver version from the current configuration.
    /// For a bundled driver this is `Bundled`, decided locally without
    /// consulting anything.
    fn request_driver_version(&mut self) -> (r: Result<ResolvedVersion, ResolverError>)
        ensures
            *final(self) == *old(self),
            old(self).spec_bundled_driver() <==> (r matches Ok(v) && v
                == ResolvedVersion::Bundled),
    ;

    /// Resolves the target browser version against the remote catalog;
    /// with no catalog there is nothing to resolve.
    fn request_browser_version(&mut self) -> (r: Result<Option<String>, ResolverError>)
        ensures
            *final(self) == *old(self),
            !old(self).spec_online_available() ==> (r matches Ok(v) && v is None),
    ;

    /// The driver artifact URL; the uniform unavailable-download failure
    /// when the driver has no online distribution channel.
    fn get_driver_url(&mut self) -> (r: Result<String, ResolverError>)
        ensures
            *final(self) == *old(self),
            !old(self).spec_online_available() ==> unavailable_for(
                r,
                old(self).spec_driver_name(),
            ),
    ;

    /// Where the driver binary is expected once resolved.  For a bundled
    /// driver this always names its fixed OS location.
    fn get_driver_path_in_cache(&self) -> (r: Result<String, ResolverError>)
        ensures
            r matches Ok(p) ==> p@ == self.spec_driver_cache_location(),
            self.spec_bundled_driver() ==> r is Ok,
    ;

    /// The current configuration.
    fn get_config(&self) -> (r: &ManagerConfig)
        ensures
            *r == self.spec_config(),
    ;

    /// Mutable access to the configuration; everything else about the
    /// adapter stays as it is.
    fn get_config_mut(&mut self) -> (r: &mut ManagerConfig)
        ensures
            *r == old(self).spec_config(),
            final(self).spec_config() == *final(r),
            final(self).spec_browser_name() == old(self).spec_browser_name(),
            final(self).spec_driver_name() == old(self).spec_driver_name(),
            final(self).spec_online_available() == old(self).spec_online_available(),
            final(self).spec_bundled_driver() == old(self).spec_bundled_driver(),
            final(self).spec_driver_cache_location() == old(self).spec_driver_cache_location(),
            final(self).spec_platform_label() == old(self).spec_platform_label(),
            final(self).spec_names_in_path() == old(self).spec_names_in_path(),
            final(self).spec_http_client() == old(self).spec_http_client(),
            final(self).spec_logger() == old(self).spec_logger(),
    ;

    /// Replaces the configuration wholesale, and nothing else.
    fn set_config(&mut self, config: ManagerConfig)
        ensures
            final(self).spec_browser_name() == old(self).spec_browser_name(),
            final(self).spec_driver_name() == old(self).spec_driver_name(),
            final(self).spec_online_available() == old(self).spec_online_available(),
            final(self).spec_bundled_driver() == old(self).spec_bundled_driver(),
            final(self).spec_driver_cache_location() == old(self).spec_driver_cache_location(),
            final(self).spec_platform_label() == old(self).spec_platform_label(),
            final(self).spec_names_in_path() == old(self).spec_names_in_path(),
            final(self).spec_config() == config,
            final(self).spec_http_client() == old(self).spec_http_client(),
            final(self).spec_logger() == old(self).spec_logger(),
    ;

    /// The diagnostic sink this instance owns.
    fn get_logger(&self) -> (r: &Logger)
        ensures
            *r == self.spec_logger(),
    ;

    /// Replaces the diagnostic sink, and nothing else.
    fn set_logger(&mut self, log: Logger)
        ensures
            final(self).spec_browser_name() == old(self).spec_browser_name(),
            final(self).spec_driver_name() == old(self).spec_driver_name(),
            final(self).spec_online_available() == old(self).spec_online_available(),
            final(self).spec_bundled_driver() == old(self).spec_bundled_driver(),
            final(self).spec_driver_cache_location() == old(self).spec_driver_cache_location(),
            final(self).spec_platform_label() == old(self).spec_platform_label(),
            final(self).spec_names_in_path() == old(self).spec_names_in_path(),
            final(self).spec_logger() == log,
            final(self).spec_config() == old(self).spec_config(),
            final(self).spec_http_client() == old(self).spec_http_client(),
    ;

    /// The platform label used in download URLs and cache paths.
    fn get_platform_label(&self) -> (r: &str)
        ensures
            r@ == self.spec_platform_label(),
    ;

    /// Resolves a semantic browser version ("latest") against the remote
    /// catalog; the uniform unavailable-download failure when there is
    /// none.
    fn request_latest_browser_version_from_online(&mut self, browser_version: &str) -> (r: Result<
        String,
        ResolverError,
    >)
        ensures
            *final(self) == *old(self),
            !old(self).spec_online_available() ==> unavailable_for(
                r,
                old(self).spec_driver_name(),
            ),
    ;

    /// Resolves a pinned browser version against the remote catalog; the
    /// uniform unavailable-download failure when there is none.
    fn request_fixed_browser_version_from_online(&mut self, browser_version: &str) -> (r: Result<
        String,
        ResolverError,
    >)
        ensures
            *final(self) == *old(self),
            !old(self).spec_online_available() ==> unavailable_for(
                r,
                old(self).spec_driver_name(),
            ),
    ;

    /// The oldest browser version that can still be downloaded; the
    /// uniform unavailable-download failure for a browser never
    /// distributed for download.
    fn get_min_browser_version_for_download(&self) -> (r: Result<i32, ResolverError>)
        ensures
            !self.spec_online_available() ==> unavailable_for(r, self.spec_driver_name()),
    ;

    /// Where a downloaded browser of the given version would be
    /// installed; the uniform unavailable-download failure for a browser
    /// never distributed for download.
    fn get_browser_binary_path(&mut self, browser_version: &str) -> (r: Result<
        String,
        ResolverError,
    >)
        ensures
            *final(self) == *old(self),
            !old(self).spec_online_available() ==> unavailable_for(
                r,
                old(self).spec_driver_name(),
            ),
    ;

    /// The URL a browser of the given version would be downloaded from;
    /// the uniform unavailable-download failure for a browser never
    /// distributed for download.
    fn get_browser_url_for_download(&mut self, browser_version: &str) -> (r: Result<
        String,
        ResolverError,
    >)
        ensures
            *final(self) == *old(self),
            !old(self).spec_online_available() ==> unavailable_for(
                r,
                old(self).spec_driver_name(),
            ),
    ;

    /// The label naming a downloadable browser build; the uniform
    /// unavailable-download failure for a browser never distributed for
    /// download.
    fn get_browser_label_for_download(&self, browser_version: &str) -> (r: Result<
        Option<String>,
        ResolverError,
    >)
        ensures
            !self.spec_online_available() ==> unavailable_for(r, self.spec_driver_name()),
    ;
}

/// The adapter for Safari Technology Preview: discovered on the local
/// machine only.  Its driver ships inside the browser bundle, so no
/// online operation is ever available and nothing is ever downloaded.
pub struct SafariTPManager {
    pub browser_name: &'static str,
    pub driver_name: &'static str,
    pub config: ManagerConfig,
    pub http_client: reqwest::Client,
    pub log: Logger,
}

impl SafariTPManager {
    /// The adapter names its identities correctly.
    pub open spec fn wf(&self) -> bool {
        self.browser_name@ == "safaritp"@ && self.driver_name@ == "safaridriver"@
    }

    /// Creates the adapter with its default configuration and an HTTP
    /// client built from that configuration's timeout and proxy.  The
    /// client build is the one step that can fail.
    pub fn new() -> (r: Result<Box<SafariTPManager>, ResolverError>)
        ensures
            r matches Ok(m) ==> {
                &&& m.wf()
                &&& m.spec_config().browser_name@ == "safaritp"@
                &&& m.spec_config().driver_name@ == "safaridriver"@
                &&& m.spec_config().browser_version@.len() == 0
                &&& m.spec_config().driver_version@.len() == 0
                &&& m.spec_config().os == Os::MacOs
                &&& m.spec_config().timeout_secs == crate::config::DEFAULT_TIMEOUT_SECS
                &&& m.spec_config().proxy@.len() == 0
                &&& m.spec_config().cache_root@.len() == 0
                &&& !m.spec_config().offline
                &&& m.log.spec_entries().len() == 0
            },
            r matches Err(e) ==> e matches ResolverError::NetworkFailure(_),
    {
        let browser_name = "safaritp";
        let driver_name = "safaridriver";
        let config = ManagerConfig::default(browser_name, driver_name);
        let default_timeout = config.timeout_secs;
        let http_client = match create_http_client(default_timeout, config.proxy.as_str()) {
            Ok(c) => c,
            Err(e) => {
                return Err(e);
            },
        };
        Ok(
            Box::new(
                SafariTPManager {
                    browser_name,
                    driver_name,
                    config,
                    http_client,
                    log: Logger::new(),
                },
            ),
        )
    }

    /// Where the browser binary sits when installed: the target of the
    /// read-only version probe.
    pub fn browser_binary_location(&self) -> (r: &'static str)
        ensures
            r@ == "/Applications/Safari Technology Preview.app/Contents/MacOS/Safari Technology Preview"@,
    {
        "/Applications/Safari Technology Preview.app/Contents/MacOS/Safari Technology Preview"
    }
}

impl SeleniumManager for SafariTPManager {
    open spec fn spec_browser_name(&self) -> Seq<char> {
        self.browser_name@
    }

    open spec fn spec_driver_name(&self) -> Seq<char> {
        self.driver_name@
    }

    open spec fn spec_online_available(&self) -> bool {
        false
    }

    open spec fn spec_bundled_driver(&self) -> bool {
        true
    }

    open spec fn spec_driver_cache_location(&self) -> Seq<char> {
        "/Applications/Safari Technology Preview.app/Contents/MacOS/safaridriver"@
    }

    open spec fn spec_platform_label(&self) -> Seq<char> {
        ""@
    }

    open spec fn spec_path_table_contains(&self, key: BrowserPath) -> bool {
        key == (BrowserPath { os: Os::MacOs, channel: ReleaseChannel::Stable })
    }

    open spec fn spec_path_table_path(&self, key: BrowserPath) -> Seq<char> {
        "/Applications/Safari Technology Preview.app"@
    }

    open spec fn spec_config(&self) -> ManagerConfig {
        self.config
    }

    open spec fn spec_names_in_path(&self) -> Seq<Seq<char>> {
        seq![self.browser_name@]
    }

    open spec fn spec_http_client(&self) -> reqwest::Client {
        self.http_client
    }

    open spec fn spec_logger(&self) -> Logger {
        self.log
    }

    fn get_browser_name(&self) -> (r: &str) {
        self.browser_name
    }

    fn get_browser_names_in_path(&self) -> (r: Vec<&str>) {
        let mut names: Vec<&str> = Vec::new();
        names.push(self.get_browser_name());
        names
    }

    fn get_http_client(&self) -> &reqwest::Client {
        &self.http_client
    }

    fn set_http_client(&mut self, http_client: reqwest::Client) {
        self.http_client = http_client;
    }

    fn get_browser_path_map(&self) -> (r: PathTable) {
        let mut table = PathTable::empty();
        table.add(
            Os::MacOs,
            ReleaseChannel::Stable,
            String::from_str("/Applications/Safari Technology Preview.app"),
        );
        table
    }

    fn discover_browser_version(&mut self, probe: &BinaryProbe) -> (r: Result<
        Option<String>,
        ResolverError,
    >) {
        discover_version_from_probe(probe)
    }

    fn get_driver_name(&self) -> (r: &str) {
        self.driver_name
    }

    fn request_driver_version(&mut self) -> (r: Result<ResolvedVersion, ResolverError>) {
        Ok(ResolvedVersion::Bundled)
    }

    fn request_browser_version(&mut self) -> (r: Result<Option<String>, ResolverError>) {
        Ok(None)
    }

    fn get_driver_url(&mut self) -> (r: Result<String, ResolverError>) {
        unavailable_download(self.driver_name)
    }

    fn get_driver_path_in_cache(&self) -> (r: Result<String, ResolverError>) {
        Ok(String::from_str("/Applications/Safari Technology Preview.app/Contents/MacOS/safaridriver"))
    }

    fn get_config(&self) -> (r: &ManagerConfig) {
        &self.config
    }

    fn get_config_mut(&mut self) -> (r: &mut ManagerConfig) {
        &mut self.config
    }

    fn set_config(&mut self, config: ManagerConfig) {
        self.config = config;
    }

    fn get_logger(&self) -> &Logger {
        &self.log
    }

    fn set_logger(&mut self, log: Logger) {
        self.log = log;
    }

    fn get_platform_label(&self) -> (r: &str) {
        ""
    }

    fn request_latest_browser_version_from_online(&mut self, browser_version: &str) -> (r: Result<
        String,
        ResolverError,
    >) {
        unavailable_download(self.driver_name)
    }

    fn request_fixed_browser_version_from_online(&mut self, browser_version: &str) -> (r: Result<
        String,
        ResolverError,
    >) {
        unavailable_download(self.driver_name)
    }

    fn get_min_browser_version_for_download(&self) -> (r: Result<i32, ResolverError>) {
        unavailable_download(self.driver_name)
    }

    fn get_browser_binary_path(&mut self, browser_version: &str) -> (r: Result<
        String,
        ResolverError,
    >) {
        unavailable_download(self.driver_name)
    }

    fn get_browser_url_for_download(&mut self, browser_version: &str) -> (r: Result<
        String,
        ResolverError,
    >) {
        unavailable_download(self.driver_name)
    }

    fn get_browser_label_for_download(&self, browser_version: &str) -> (r: Result<
        Option<String>,
        ResolverError,
    >) {
        unavailable_download(self.driver_name)
    }
}

/// What a resolution decides: either the driver is already at a usable
/// local path, or it must be fetched from a URL into a temporary location
/// and then published to its final cache path.
#[derive(Debug, Clone, PartialEq, Eq)]
pub enum ResolutionPlan {
    /// A usable driver binary stands at this path.
    UsePath(String),
    /// Fetch the artifact at `url` into `temp`, verify it, then publish
    /// it atomically to `target`.
    Fetch { url: String, temp: String, target: String },
}

/// The fixed resolution sequence every adapter runs: discover the
/// installed browser version (skipped when a fixed browser version was
/// requested), resolve the target driver version, then resolve the
/// driver in the cache.  A bundled driver resolves to its fixed OS
/// location with no online step; an adapter with no online channel
/// otherwise fails at once with its uniform unavailable error.
pub fn resolve_driver<M: SeleniumManager>(m: &mut M, probe: &BinaryProbe) -> (r: Result<
    ResolutionPlan,
    ResolverError,
>)
    ensures
        *final(m) == *old(m),
        old(m).spec_config().browser_version@.len() == 0 && discovery_fails(*probe) ==> (r matches
            Err(e) && e matches ResolverError::VersionDiscoveryFailed(_)),
        (old(m).spec_config().browser_version@.len() > 0 || !discovery_fails(*probe)) && old(
            m,
        ).spec_bundled_driver() ==> (r matches Ok(p) && p matches ResolutionPlan::UsePath(loc)
            && loc@ == old(m).spec_driver_cache_location()),
        !old(m).spec_bundled_driver() && !old(m).spec_online_available() ==> r is Err,
        match r {
            Ok(ResolutionPlan::Fetch { url: _, temp, target }) => exists|v: Seq<char>|
                target@ == #[trigger] crate::cache::cache_path(
                    old(m).spec_config().cache_root@,
                    old(m).spec_driver_name(),
                    old(m).spec_platform_label(),
                    v,
                ) && temp@ == crate::cache::temp_path(
                    old(m).spec_config().cache_root@,
                    old(m).spec_driver_name(),
                    old(m).spec_platform_label(),
                    v,
                ),
            _ => true,
        },
{
    let fixed_version_requested = !m.get_config().browser_version.as_str().is_empty();
    if !fixed_version_requested {
        match m.discover_browser_version(probe) {
            Ok(_) => {},
            Err(e) => {
                return Err(e);
            },
        }
    }
    let driver_version = match m.request_driver_version() {
        Ok(v) => v,
        Err(e) => {
            return Err(e);
        },
    };
    match driver_version {
        ResolvedVersion::Bundled => {
            match m.get_driver_path_in_cache() {
                Ok(p) => Ok(ResolutionPlan::UsePath(p)),
                Err(e) => Err(e),
            }
        },
        ResolvedVersion::Concrete(version) => {
            let url = match m.get_driver_url() {
                Ok(u) => u,
                Err(e) => {
                    return Err(e);
                },
            };
            let root = m.get_config().cache_root.clone();
            let driver = m.get_driver_name().to_owned();
            let platform = m.get_platform_label().to_owned();
            let target = crate::cache::driver_cache_path(
                root.as_str(),
                driver.as_str(),
                platform.as_str(),
                version.as_str(),
            );
            let temp = crate::cache::driver_temp_path(
                root.as_str(),
                driver.as_str(),
                platform.as_str(),
                version.as_str(),
            );
            proof {
                assert(target@ == crate::cache::cache_path(
                    old(m).spec_config().cache_root@,
                    old(m).spec_driver_name(),
                    old(m).spec_platform_label(),
                    version@,
                ));
                assert(temp@ == crate::cache::temp_path(
                    old(m).spec_config().cache_root@,
                    old(m).spec_driver_name(),
                    old(m).spec_platform_label(),
                    version@,
                ));
            }
            Ok(ResolutionPlan::Fetch { url, temp, target })
        },
        ResolvedVersion::Unknown => {
            match m.get_driver_url() {
                Ok(_) => Err(
                    ResolverError::VersionDiscoveryFailed(
                        String::from_str("driver version unknown"),
                    ),
                ),
                Err(e) => Err(e),
            }
        },
    }
}

} // verus!
