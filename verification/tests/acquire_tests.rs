use mcp_computer_use::acquire::{
    check_cdp_browser_type, check_port_free, driver_name_for, find_archive_entry,
    port_ready_step, resolve_binary_source, select_driver, BinarySource, BrowserManager,
    DownloadCache, DriverManager, DriverRelease, PortPoll,
};
use mcp_computer_use::config::{
    browser_type_from_name, browser_type_supported, default_magnitude, default_true,
    transport_from_name, BrowserType, Config, ProtocolKind, TransportMode,
};
use mcp_computer_use::errors::AcquireError;
use mcp_computer_use::launch::{
    cdp_launch_args, cdp_open_strategy, debug_port_arg_bytes, debug_url_bytes, driver_ready_plan,
    driver_url_bytes, port_arg_bytes, webdriver_caps_args, window_size_arg_bytes,
    DriverReadyPlan, OpenStrategy,
};
use mcp_computer_use::version::parse_major_version;

#[test]
fn test_browser_manager_creation() {
    let manager = BrowserManager::new();
    assert!(manager.browser_process.is_none());
    assert_eq!(manager.cdp_port, 9222);
}

#[test]
fn managers_stop_exactly_once() {
    let mut m = BrowserManager::new();
    m.record_launch(4242, 9223);
    assert_eq!(m.stop(), Some(4242));
    assert_eq!(m.stop(), None);

    let mut d = DriverManager::new();
    assert_eq!(d.port, 9515);
    d.record_launch(77, 9516);
    assert_eq!(d.stop(), Some(77));
    assert_eq!(d.stop(), None);
}

fn rel(major: u32, minor: u32, patch: u32, stable: bool) -> DriverRelease {
    DriverRelease { major, minor, patch, stable }
}

#[test]
fn driver_selection_prefers_the_matching_major() {
    let manifest = vec![
        rel(119, 0, 5, true),
        rel(120, 0, 1, true),
        rel(120, 2, 0, false),
        rel(121, 0, 9, true),
    ];
    let picked = select_driver(&manifest, 120).unwrap();
    // The newest release of major 120, even over a newer other major.
    assert_eq!(picked, rel(120, 2, 0, false));
}

#[test]
fn driver_selection_falls_back_to_latest_stable() {
    let manifest = vec![
        rel(119, 0, 5, true),
        rel(121, 0, 9, true),
        rel(122, 1, 0, false),
    ];
    let picked = select_driver(&manifest, 120).unwrap();
    // No major 120: the manifest's latest stable entry wins.
    assert_eq!(picked, rel(121, 0, 9, true));
}

#[test]
fn driver_selection_with_nothing_usable_is_none() {
    let manifest = vec![rel(122, 1, 0, false)];
    assert_eq!(select_driver(&manifest, 120), None);
    assert_eq!(select_driver(&Vec::new(), 120), None);
}

#[test]
fn version_output_parses_the_first_dotted_token() {
    assert_eq!(parse_major_version("Google Chrome 120.0.6099.109"), Some(120));
    assert_eq!(parse_major_version("ChromeDriver 114.0.5735.90 (abcdef)"), Some(114));
    assert_eq!(parse_major_version("Chromium 121.3"), Some(121));
    assert_eq!(parse_major_version("no version here"), None);
    assert_eq!(parse_major_version("build 42 only"), None);
    assert_eq!(parse_major_version("99999999999999999999.1 overflow"), None);
}

#[test]
fn concurrent_downloads_run_once_under_the_lock() {
    let mut cache = DownloadCache::new();
    // Two acquisitions of the same version, in the order the advisory lock
    // serializes them.
    let first_downloaded = cache.acquire_version();
    let second_downloaded = cache.acquire_version();
    assert!(first_downloaded);
    assert!(!second_downloaded);
    assert_eq!(cache.download_count, 1);
    assert!(cache.cached);
    // The lock file does not exist after both complete.
    assert!(!cache.lock_file_exists);
    assert!(!cache.lock_held);
}

#[test]
fn cached_check_happens_after_the_lock() {
    let mut cache = DownloadCache::new();
    cache.acquire_lock();
    assert!(cache.lock_file_exists);
    assert!(cache.fetch_if_missing());
    assert!(!cache.fetch_if_missing());
    cache.release_lock();
    assert_eq!(cache.download_count, 1);
    assert!(!cache.lock_file_exists);
}

#[test]
fn archive_entry_is_found_by_base_filename() {
    let entries = vec![
        "LICENSE".to_string(),
        "notchromedriver".to_string(),
        "chromedriver-linux64/chromedriver".to_string(),
    ];
    // The nested layout matches; the entry whose name merely ends in the
    // executable name does not.
    assert_eq!(find_archive_entry(&entries, "chromedriver"), Some(2));

    let flat = vec!["chromedriver".to_string()];
    assert_eq!(find_archive_entry(&flat, "chromedriver"), Some(0));
    assert_eq!(find_archive_entry(&flat, "geckodriver"), None);
    assert_eq!(driver_name_for(BrowserType::Chrome), "chromedriver");
    assert_eq!(driver_name_for(BrowserType::Firefox), "geckodriver");
}

#[test]
fn resolution_order_is_config_path_then_common_then_download() {
    assert_eq!(
        resolve_binary_source(Some(true), true, true, true),
        Ok(BinarySource::Configured)
    );
    assert_eq!(
        resolve_binary_source(Some(false), true, true, true),
        Ok(BinarySource::OnPath)
    );
    assert_eq!(
        resolve_binary_source(None, false, true, true),
        Ok(BinarySource::CommonLocation)
    );
    assert_eq!(
        resolve_binary_source(None, false, false, true),
        Ok(BinarySource::Downloaded)
    );
    assert_eq!(
        resolve_binary_source(None, false, false, false),
        Err(AcquireError::BinaryNotFound)
    );
}

#[test]
fn readiness_poll_fails_hard_at_the_ceiling() {
    assert_eq!(port_ready_step(true, 0), Ok(PortPoll::Ready));
    assert_eq!(port_ready_step(false, 29900), Ok(PortPoll::Wait));
    assert_eq!(port_ready_step(false, 30000), Err(AcquireError::AcquisitionTimeout));
}

#[test]
fn bound_ports_are_refused_before_launch() {
    assert_eq!(check_port_free(false), Ok(()));
    assert_eq!(check_port_free(true), Err(AcquireError::PortInUse));
}

#[test]
fn acquire_errors_have_messages() {
    assert_eq!(AcquireError::BinaryNotFound.message(), "binary not found");
    assert_eq!(AcquireError::PortInUse.message(), "port already in use");
    assert_eq!(
        AcquireError::AcquisitionTimeout.message(),
        "endpoint failed to become ready"
    );
}

#[test]
fn endpoint_and_argument_rendering() {
    assert_eq!(driver_url_bytes(9515), b"http://localhost:9515".to_vec());
    assert_eq!(debug_url_bytes(9222), b"http://127.0.0.1:9222".to_vec());
    assert_eq!(port_arg_bytes(9515), b"--port=9515".to_vec());
    assert_eq!(
        debug_port_arg_bytes(9222),
        b"--remote-debugging-port=9222".to_vec()
    );
    assert_eq!(
        window_size_arg_bytes(1280, 720),
        b"--window-size=1280,720".to_vec()
    );
}

#[test]
fn cdp_launch_arguments_follow_the_configuration() {
    let args = cdp_launch_args(true, false, 1280, 720, 9222, "https://www.google.com");
    let args: Vec<String> = args
        .into_iter()
        .map(|a| String::from_utf8(a).unwrap())
        .collect();
    assert_eq!(args[0], "--remote-debugging-port=9222");
    assert!(args.contains(&"--no-sandbox".to_string()));
    assert!(args.contains(&"--headless=new".to_string()));
    assert!(args.contains(&"--window-size=1280,720".to_string()));
    assert_eq!(args.last().unwrap(), "https://www.google.com");
    assert!(!args.contains(&"--disable-infobars".to_string()));

    let headed = cdp_launch_args(false, true, 800, 600, 9222, "not a url");
    let headed: Vec<String> = headed
        .into_iter()
        .map(|a| String::from_utf8(a).unwrap())
        .collect();
    assert!(!headed.contains(&"--no-sandbox".to_string()));
    assert!(!headed.contains(&"--headless=new".to_string()));
    assert!(headed.contains(&"--disable-infobars".to_string()));
    // A URL without a scheme never reaches the command line.
    assert!(!headed.contains(&"not a url".to_string()));
}

#[test]
fn webdriver_capability_arguments_follow_the_configuration() {
    let args = webdriver_caps_args(true, 1280, 720);
    let args: Vec<String> = args
        .into_iter()
        .map(|a| String::from_utf8(a).unwrap())
        .collect();
    assert_eq!(args[0], "--headless");
    assert_eq!(args.last().unwrap(), "--window-size=1280,720");
    let headed = webdriver_caps_args(false, 1280, 720);
    assert_eq!(headed.len(), args.len() - 1);
}

#[test]
fn open_strategy_prefers_the_existing_session() {
    assert!(matches!(
        cdp_open_strategy(true, false, &Some("http://127.0.0.1:9222".to_string())),
        OpenStrategy::AlreadyOpen
    ));
    match cdp_open_strategy(false, false, &Some("http://127.0.0.1:9222".to_string())) {
        OpenStrategy::ConnectExisting { url } => assert_eq!(url, "http://127.0.0.1:9222"),
        _ => panic!("expected a connection to the existing browser"),
    }
    assert!(matches!(
        cdp_open_strategy(false, true, &Some("x".to_string())),
        OpenStrategy::LaunchNew
    ));
    assert!(matches!(cdp_open_strategy(false, false, &None), OpenStrategy::LaunchNew));
}

#[test]
fn driver_plan_honours_auto_launch() {
    assert!(matches!(driver_ready_plan(false, 9515), DriverReadyPlan::UseExisting));
    assert!(matches!(
        driver_ready_plan(true, 9600),
        DriverReadyPlan::LaunchOnPort { port: 9600 }
    ));
}

#[test]
fn cdp_mode_supports_only_chrome() {
    assert_eq!(check_cdp_browser_type(BrowserType::Chrome), Ok(()));
    assert!(check_cdp_browser_type(BrowserType::Firefox).is_err());
}

#[test]
fn configuration_defaults() {
    let c = Config::default();
    assert_eq!(c.webdriver_url, "http://localhost:9515");
    assert_eq!(c.screen_width, 1280);
    assert_eq!(c.screen_height, 720);
    assert_eq!(c.initial_url, "https://www.google.com");
    assert_eq!(c.search_engine_url, "https://www.google.com");
    assert!(c.headless);
    assert_eq!(c.http_port, 8080);
    assert_eq!(c.http_host, "127.0.0.1");
    assert_eq!(c.driver_port, 9515);
    assert_eq!(c.cdp_port, 9222);
    assert!(matches!(c.browser_type, BrowserType::Chrome));
    assert!(matches!(c.transport_mode, TransportMode::Stdio));
    assert!(matches!(c.protocol, ProtocolKind::Polling));
    assert!(default_true());
    assert_eq!(default_magnitude(), 800);
}

#[test]
fn disabled_tools_are_looked_up_by_name() {
    let mut c = Config::default();
    c.disabled_tools = vec!["click_at".to_string(), "new_tab".to_string()];
    assert!(c.is_tool_disabled("click_at"));
    assert!(c.is_tool_disabled("new_tab"));
    assert!(!c.is_tool_disabled("navigate"));
}

#[test]
fn names_select_browser_type_and_transport() {
    assert!(matches!(browser_type_from_name("FIREFOX"), BrowserType::Firefox));
    assert!(matches!(browser_type_from_name("edge"), BrowserType::Edge));
    assert!(matches!(browser_type_from_name("safari"), BrowserType::Safari));
    assert!(matches!(browser_type_from_name("anything"), BrowserType::Chrome));
    assert!(matches!(transport_from_name("http"), TransportMode::Http));
    assert!(matches!(transport_from_name("stdio"), TransportMode::Stdio));
    assert!(matches!(transport_from_name("?"), TransportMode::Stdio));
    assert!(browser_type_supported(BrowserType::Chrome));
    assert!(!browser_type_supported(BrowserType::Safari));
}
