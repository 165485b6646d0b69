use driver_resolver::browser_path::{Os, PathTable, ReleaseChannel};
use driver_resolver::cache::{
    driver_cache_path, driver_temp_path, resolve_in_cache, CacheAction,
};
use driver_resolver::config::ManagerConfig;
use driver_resolver::errors::{unavailable_download, ResolverError};
use driver_resolver::http::create_http_client;
use driver_resolver::identity::{
    canonical_chars, matches_safaritp, resolve_safaritp_identity, safaritp_names,
    same_identity,
};
use driver_resolver::logger::{LogLevel, Logger};
use driver_resolver::manager::{
    resolve_driver, ResolutionPlan, SafariTPManager, SeleniumManager,
};
use driver_resolver::version::{
    discover_version_from_probe, parse_version_output, trim_output, BinaryProbe,
    ResolvedVersion,
};

const SAFARITP_APP: &str = "/Applications/Safari Technology Preview.app";
const SAFARIDRIVER_BUNDLED: &str =
    "/Applications/Safari Technology Preview.app/Contents/MacOS/safaridriver";

fn manager() -> Box<SafariTPManager> {
    SafariTPManager::new().expect("client build should succeed")
}

#[test]
fn alias_mixed_case_and_spaces_resolves_to_canonical() {
    let exact = resolve_safaritp_identity("safaritp");
    let spaced = resolve_safaritp_identity("Safari Technology Preview");
    assert_eq!(exact, Some("safaritp"));
    assert_eq!(spaced, exact);
}

#[test]
fn all_alias_forms_resolve() {
    assert!(matches_safaritp("safaritp"));
    assert!(matches_safaritp("SafariTP"));
    assert!(matches_safaritp("safari technology preview"));
    assert!(matches_safaritp("Safari\\ Technology\\ Preview"));
    assert!(matches_safaritp("SafariTechnologyPreview"));
    assert!(matches_safaritp("safari   technology   preview"));
}

#[test]
fn alias_list_is_published_and_self_consistent() {
    let names = safaritp_names();
    assert_eq!(
        names,
        vec![
            "safaritp",
            "safari technology preview",
            "safari\\ technology\\ preview",
            "safaritechnologypreview",
        ]
    );
    for name in names {
        assert!(matches_safaritp(name));
    }
}

#[test]
fn unknown_alias_is_not_resolved() {
    assert_eq!(resolve_safaritp_identity("firefox"), None);
    assert_eq!(resolve_safaritp_identity("safari"), None);
    assert_eq!(resolve_safaritp_identity(""), None);
}

#[test]
fn identity_comparison_ignores_case_and_separators() {
    assert!(same_identity("SAFARITP", "safaritp"));
    assert!(same_identity("Safari Technology Preview", "safaritechnologypreview"));
    assert!(!same_identity("safaritp", "safaridriver"));
}

#[test]
fn canonical_form_drops_separators_and_folds_case() {
    let c = canonical_chars("A b\\C");
    assert_eq!(c, vec!['a', 'b', 'c']);
}

#[test]
fn path_table_supported_pair_has_path() {
    let m = manager();
    let table = m.get_browser_path_map();
    let hit = table.lookup(Os::MacOs, ReleaseChannel::Stable);
    assert_eq!(hit.map(|s| s.as_str()), Some(SAFARITP_APP));
}

#[test]
fn path_table_absent_pairs_are_unsupported() {
    let m = manager();
    let table = m.get_browser_path_map();
    assert!(table.lookup(Os::Windows, ReleaseChannel::Stable).is_none());
    assert!(table.lookup(Os::Linux, ReleaseChannel::Stable).is_none());
    assert!(table.lookup(Os::MacOs, ReleaseChannel::Beta).is_none());
    assert!(table.lookup(Os::MacOs, ReleaseChannel::Nightly).is_none());
}

#[test]
fn path_table_rejects_duplicate_free_build() {
    let mut table = PathTable::empty();
    table.add(Os::MacOs, ReleaseChannel::Stable, String::from("/a"));
    table.add(Os::MacOs, ReleaseChannel::Beta, String::from("/b"));
    assert_eq!(table.len(), 2);
    assert_eq!(
        table.lookup(Os::MacOs, ReleaseChannel::Beta).map(|s| s.as_str()),
        Some("/b")
    );
}

#[test]
fn missing_binary_is_absent_not_an_error() {
    let r = discover_version_from_probe(&BinaryProbe::Missing);
    assert_eq!(r, Ok(None));
    let mut m = manager();
    assert_eq!(m.discover_browser_version(&BinaryProbe::Missing), Ok(None));
}

#[test]
fn version_output_is_parsed_and_trimmed() {
    let probe = BinaryProbe::VersionOutput(String::from(" 17.4 \n"));
    let r = discover_version_from_probe(&probe);
    assert_eq!(r, Ok(Some(String::from("17.4"))));
}

#[test]
fn garbage_version_output_is_a_discovery_failure() {
    let probe = BinaryProbe::VersionOutput(String::from("not a version"));
    let r = discover_version_from_probe(&probe);
    assert!(matches!(r, Err(ResolverError::VersionDiscoveryFailed(_))));
}

#[test]
fn unreadable_metadata_is_a_discovery_failure() {
    let probe = BinaryProbe::Unreadable(String::from("corrupt plist"));
    let r = discover_version_from_probe(&probe);
    assert_eq!(
        r,
        Err(ResolverError::VersionDiscoveryFailed(String::from("corrupt plist")))
    );
}

#[test]
fn parse_version_output_exact_values() {
    assert_eq!(parse_version_output("  2.3.4\t\n"), Ok(String::from("2.3.4")));
    assert_eq!(parse_version_output("205"), Ok(String::from("205")));
    assert!(matches!(
        parse_version_output("   "),
        Err(ResolverError::VersionDiscoveryFailed(_))
    ));
    assert!(matches!(
        parse_version_output("17.4-beta"),
        Err(ResolverError::VersionDiscoveryFailed(_))
    ));
}

#[test]
fn trim_output_removes_only_outer_whitespace() {
    assert_eq!(trim_output("  a b \n"), "a b");
    assert_eq!(trim_output(""), "");
    assert_eq!(trim_output(" \t\r\n"), "");
}

#[test]
fn every_online_operation_is_unavailable() {
    let mut m = manager();
    let unavailable = Err(ResolverError::DownloadUnavailable(String::from("safaridriver")));
    assert_eq!(m.get_driver_url(), unavailable.clone());
    assert_eq!(
        m.request_latest_browser_version_from_online("latest"),
        unavailable.clone()
    );
    assert_eq!(
        m.request_fixed_browser_version_from_online("17.0"),
        unavailable.clone()
    );
    assert_eq!(
        m.get_min_browser_version_for_download(),
        Err(ResolverError::DownloadUnavailable(String::from("safaridriver")))
    );
    assert_eq!(m.get_browser_binary_path("17.0"), unavailable.clone());
    assert_eq!(m.get_browser_url_for_download("17.0"), unavailable);
    assert_eq!(
        m.get_browser_label_for_download("17.0"),
        Err(ResolverError::DownloadUnavailable(String::from("safaridriver")))
    );
}

#[test]
fn fixed_version_request_fails_fast_with_driver_name() {
    let mut m = manager();
    let err = m
        .request_fixed_browser_version_from_online("17.0")
        .expect_err("no online channel exists");
    assert_eq!(err.message(), "safaridriver not available for download");
}

#[test]
fn shared_fallback_carries_driver_name() {
    let r: Result<String, ResolverError> = unavailable_download("safaridriver");
    assert_eq!(
        r,
        Err(ResolverError::DownloadUnavailable(String::from("safaridriver")))
    );
}

#[test]
fn cache_resolution_is_idempotent() {
    let first = resolve_in_cache("/tmp/cache", "safaridriver", "mac64", "2.0.1", false);
    let second = resolve_in_cache("/tmp/cache", "safaridriver", "mac64", "2.0.1", false);
    assert_eq!(first.0, second.0);
    let cached = resolve_in_cache("/tmp/cache", "safaridriver", "mac64", "2.0.1", true);
    assert_eq!(cached.0, first.0);
    assert_eq!(cached.1, CacheAction::UseCached);
    assert_eq!(first.1, CacheAction::FetchToTemp);
}

#[test]
fn cache_path_layout_is_deterministic() {
    let p = driver_cache_path("/tmp/cache", "safaridriver", "mac64", "2.0");
    assert_eq!(p, "/tmp/cache/safaridriver/mac64/2.0/safaridriver");
    let t = driver_temp_path("/tmp/cache", "safaridriver", "mac64", "2.0");
    assert_eq!(t, "/tmp/cache/safaridriver/mac64/2.0/safaridriver.part");
}

#[test]
fn concurrent_writers_for_distinct_versions_touch_disjoint_paths() {
    let root = "/tmp/cache";
    let c1 = driver_cache_path(root, "safaridriver", "mac64", "1.0");
    let t1 = driver_temp_path(root, "safaridriver", "mac64", "1.0");
    let c2 = driver_cache_path(root, "safaridriver", "mac64", "2.0");
    let t2 = driver_temp_path(root, "safaridriver", "mac64", "2.0");
    let paths = [&c1, &t1, &c2, &t2];
    for i in 0..paths.len() {
        for j in 0..paths.len() {
            if i != j {
                assert_ne!(paths[i], paths[j]);
            }
        }
    }
    // Simulate two interleaved temp-then-publish sequences on an
    // in-memory disk: neither writer disturbs the other's artifact.
    let mut disk: Vec<(String, Vec<u8>)> = Vec::new();
    disk.push((t1.clone(), vec![1, 1]));
    disk.push((t2.clone(), vec![2, 2]));
    // publish: rename temp to final
    for entry in disk.iter_mut() {
        if entry.0 == t1 {
            entry.0 = c1.clone();
        } else if entry.0 == t2 {
            entry.0 = c2.clone();
        }
    }
    let a1 = disk.iter().find(|e| e.0 == c1).map(|e| e.1.clone());
    let a2 = disk.iter().find(|e| e.0 == c2).map(|e| e.1.clone());
    assert_eq!(a1, Some(vec![1, 1]));
    assert_eq!(a2, Some(vec![2, 2]));
}

#[test]
fn new_manager_has_expected_identity_and_defaults() {
    let m = manager();
    assert_eq!(m.get_browser_name(), "safaritp");
    assert_eq!(m.get_driver_name(), "safaridriver");
    let names = m.get_browser_names_in_path();
    assert_eq!(names, vec!["safaritp"]);
    let cfg = m.get_config();
    assert_eq!(cfg.browser_name, "safaritp");
    assert_eq!(cfg.driver_name, "safaridriver");
    assert_eq!(cfg.browser_version, "");
    assert_eq!(cfg.driver_version, "");
    assert_eq!(cfg.os, Os::MacOs);
    assert_eq!(cfg.timeout_secs, 120);
    assert_eq!(cfg.proxy, "");
    assert_eq!(cfg.cache_root, "");
    assert!(!cfg.offline);
    assert_eq!(m.get_platform_label(), "");
    assert_eq!(m.get_logger().len(), 0);
    assert_eq!(
        m.browser_binary_location(),
        "/Applications/Safari Technology Preview.app/Contents/MacOS/Safari Technology Preview"
    );
}

#[test]
fn driver_version_is_bundled_and_browser_version_unresolved() {
    let mut m = manager();
    assert_eq!(m.request_driver_version(), Ok(ResolvedVersion::Bundled));
    assert_eq!(m.request_browser_version(), Ok(None));
}

#[test]
fn driver_path_in_cache_is_the_fixed_os_location() {
    let m = manager();
    assert_eq!(
        m.get_driver_path_in_cache(),
        Ok(String::from(SAFARIDRIVER_BUNDLED))
    );
}

#[test]
fn engine_resolves_bundled_driver_without_any_download() {
    let mut m = manager();
    let plan = resolve_driver(&mut *m, &BinaryProbe::Missing);
    assert_eq!(
        plan,
        Ok(ResolutionPlan::UsePath(String::from(SAFARIDRIVER_BUNDLED)))
    );
    let plan = resolve_driver(&mut *m, &BinaryProbe::VersionOutput(String::from("17.4\n")));
    assert_eq!(
        plan,
        Ok(ResolutionPlan::UsePath(String::from(SAFARIDRIVER_BUNDLED)))
    );
}

#[test]
fn engine_surfaces_discovery_failure() {
    let mut m = manager();
    let plan = resolve_driver(&mut *m, &BinaryProbe::Unreadable(String::from("bad metadata")));
    assert!(matches!(plan, Err(ResolverError::VersionDiscoveryFailed(_))));
}

#[test]
fn engine_skips_discovery_when_browser_version_is_pinned() {
    let mut m = manager();
    let mut cfg = m.get_config().clone();
    cfg.browser_version = String::from("17.0");
    m.set_config(cfg);
    let plan = resolve_driver(&mut *m, &BinaryProbe::Unreadable(String::from("bad metadata")));
    assert_eq!(
        plan,
        Ok(ResolutionPlan::UsePath(String::from(SAFARIDRIVER_BUNDLED)))
    );
}

#[test]
fn config_can_be_replaced_and_edited() {
    let mut m = manager();
    let mut cfg = m.get_config().clone();
    cfg.cache_root = String::from("/tmp/cache");
    m.set_config(cfg);
    assert_eq!(m.get_config().cache_root, "/tmp/cache");
    m.get_config_mut().timeout_secs = 30;
    assert_eq!(m.get_config().timeout_secs, 30);
}

#[test]
fn default_config_for_pair() {
    let cfg = ManagerConfig::default("safaritp", "safaridriver");
    assert_eq!(cfg.browser_name, "safaritp");
    assert_eq!(cfg.driver_name, "safaridriver");
    assert_eq!(cfg.browser_version, "");
    assert_eq!(cfg.driver_version, "");
    assert_eq!(cfg.proxy, "");
    assert_eq!(cfg.cache_root, "");
    assert_eq!(cfg.timeout_secs, 120);
    assert!(!cfg.offline);
}

#[test]
fn logger_records_leveled_lines() {
    let mut log = Logger::new();
    assert_eq!(log.len(), 0);
    log.record(LogLevel::Info, String::from("resolving safaridriver"));
    log.record(LogLevel::Warn, String::from("browser not installed"));
    assert_eq!(log.len(), 2);
    assert_eq!(log.line(0).0, LogLevel::Info);
    assert_eq!(log.line(0).1, "resolving safaridriver");
    assert_eq!(log.line(1).0, LogLevel::Warn);
}

#[test]
fn logger_can_be_replaced_on_manager() {
    let mut m = manager();
    let mut log = Logger::new();
    log.record(LogLevel::Debug, String::from("fresh sink"));
    m.set_logger(log);
    assert_eq!(m.get_logger().len(), 1);
}

#[test]
fn error_messages_are_exact() {
    let e = ResolverError::DownloadUnavailable(String::from("safaridriver"));
    assert_eq!(e.message(), "safaridriver not available for download");
    let e = ResolverError::VersionDiscoveryFailed(String::from("bad output"));
    assert_eq!(e.message(), "cannot discover browser version: bad output");
    let e = ResolverError::NetworkFailure(String::from("timed out"));
    assert_eq!(e.message(), "network failure: timed out");
    let e = ResolverError::CacheWriteFailure(String::from("disk full"));
    assert_eq!(e.message(), "cannot write to driver cache: disk full");
}

#[test]
fn unavailable_operations_never_touch_the_network() {
    let mut m = manager();
    // A client that cannot complete any request quickly: every request
    // would have to cross an unroutable proxy and run into the timeout.
    // The unavailable operations must answer without consulting it.
    let poisoned = create_http_client(15, "http://192.0.2.1:9").unwrap();
    m.set_http_client(poisoned);
    let start = std::time::Instant::now();
    assert!(m.get_driver_url().is_err());
    assert!(m.request_latest_browser_version_from_online("latest").is_err());
    assert!(m.request_fixed_browser_version_from_online("17.0").is_err());
    assert!(m.get_min_browser_version_for_download().is_err());
    assert!(m.get_browser_binary_path("17.0").is_err());
    assert!(m.get_browser_url_for_download("17.0").is_err());
    assert!(m.get_browser_label_for_download("17.0").is_err());
    assert!(start.elapsed() < std::time::Duration::from_secs(5));
}

#[test]
fn http_client_builds_with_and_without_proxy() {
    let plain = create_http_client(10, "");
    assert!(plain.is_ok());
    let proxied = create_http_client(10, "http://127.0.0.1:9999");
    assert!(proxied.is_ok());
    let bad = create_http_client(10, "::definitely not a proxy url::");
    assert!(matches!(bad, Err(ResolverError::NetworkFailure(_))));
    let mut m = manager();
    m.set_http_client(plain.unwrap());
    let _ = m.get_http_client();
}
