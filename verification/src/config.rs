//! Configuration of the browser control server.
//!
//! Configuration values are plain data; reading them from the environment is
//! plumbing that lives outside the library and hands finished values in.

use vstd::prelude::*;

verus! {

use crate::text::eq_ignore_ascii_case;
use crate::text::eq_ignore_case;
use crate::text::str_eq;

/// Transport used to expose the tool interface.
#[derive(Clone, Copy, Debug, PartialEq, Eq, Structural)]
pub enum TransportMode {
    /// Standard input/output transport.
    Stdio,
    /// HTTP streamable transport.
    Http,
}

/// Supported browser families.
#[derive(Clone, Copy, Debug, PartialEq, Eq, Structural)]
pub enum BrowserType {
    Chrome,
    Firefox,
    Edge,
    Safari,
}

/// Control protocol driving the browser.
#[derive(Clone, Copy, Debug, PartialEq, Eq, Structural)]
pub enum ProtocolKind {
    /// Request/response driver server, polled once per command.
    Polling,
    /// Persistent debugging connection with asynchronous events.
    EventDriven,
}

/// Main configuration of the server.
#[derive(Clone, Debug)]
pub struct Config {
    /// Path to the browser binary; `None` selects automatic discovery.
    pub browser_binary_path: Option<String>,
    /// URL of the polling-protocol driver server.
    pub webdriver_url: String,
    /// Browser family to drive.
    pub browser_type: BrowserType,
    /// Control protocol to use for actions.
    pub protocol: ProtocolKind,
    /// Viewport width in pixels.
    pub screen_width: u32,
    /// Viewport height in pixels.
    pub screen_height: u32,
    /// URL loaded when the browser opens.
    pub initial_url: String,
    /// URL of the search engine home page.
    pub search_engine_url: String,
    /// Whether to run the browser without a visible window.
    pub headless: bool,
    /// Names of tools that must not be served.
    pub disabled_tools: Vec<String>,
    /// Whether to highlight the mouse position.
    pub highlight_mouse: bool,
    /// Transport mode of the server.
    pub transport_mode: TransportMode,
    /// Port of the HTTP transport.
    pub http_port: u16,
    /// Host of the HTTP transport.
    pub http_host: String,
    /// Whether to launch the driver process automatically.
    pub auto_launch_driver: bool,
    /// Path to the driver executable; `None` selects automatic discovery.
    pub driver_path: Option<String>,
    /// Port for an automatically launched driver.
    pub driver_port: u16,
    /// Whether to launch the browser itself for the event-driven protocol,
    /// rather than connecting to an externally managed one.
    pub auto_start: bool,
    /// Endpoint of an externally managed event-driven browser.
    pub cdp_url: Option<String>,
    /// Debugging port used when launching the browser directly.
    pub cdp_port: u16,
    /// Idle timeout in milliseconds after which the session is closed;
    /// zero disables the idle monitor.
    pub idle_timeout_ms: u64,
    /// Whether to apply undetected/stealth settings.
    pub undetected: bool,
}

impl Default for Config {
    /// The default configuration.
    fn default() -> (r: Config)
        ensures
            r.browser_binary_path is None,
            r.webdriver_url@ == "http://localhost:9515"@,
            r.browser_type is Chrome,
            r.protocol is Polling,
            r.screen_width == 1280,
            r.screen_height == 720,
            r.initial_url@ == "https://www.google.com"@,
            r.search_engine_url@ == "https://www.google.com"@,
            r.headless,
            r.disabled_tools@.len() == 0,
            !r.highlight_mouse,
            r.transport_mode is Stdio,
            r.http_port == 8080,
            r.http_host@ == "127.0.0.1"@,
            !r.auto_launch_driver,
            r.driver_path is None,
            r.driver_port == 9515,
            r.auto_start,
            r.cdp_url is None,
            r.cdp_port == 9222,
            r.idle_timeout_ms == 300000,
            !r.undetected,
    {
        Config {
            browser_binary_path: None,
            webdriver_url: "http://localhost:9515".to_owned(),
            browser_type: BrowserType::Chrome,
            protocol: ProtocolKind::Polling,
            screen_width: 1280,
            screen_height: 720,
            initial_url: "https://www.google.com".to_owned(),
            search_engine_url: "https://www.google.com".to_owned(),
            headless: true,
            disabled_tools: Vec::new(),
            highlight_mouse: false,
            transport_mode: TransportMode::Stdio,
            http_port: 8080,
            http_host: "127.0.0.1".to_owned(),
            auto_launch_driver: false,
            driver_path: None,
            driver_port: 9515,
            auto_start: true,
            cdp_url: None,
            cdp_port: 9222,
            idle_timeout_ms: 300000,
            undetected: false,
        }
    }
}

impl Config {
    /// Whether `tool_name` was disabled by configuration.
    pub fn is_tool_disabled(&self, tool_name: &str) -> (r: bool)
        ensures
            r == exists|i: int|
                0 <= i < self.disabled_tools@.len() && self.disabled_tools@[i]@ == tool_name@,
    {
        let n = self.disabled_tools.len();
        let mut i: usize = 0;
        while i < n
            invariant
                n == self.disabled_tools@.len(),
                0 <= i <= n,
                forall|j: int| 0 <= j < i ==> self.disabled_tools@[j]@ != tool_name@,
            decreases n - i,
        {
            if str_eq(self.disabled_tools[i].as_str(), tool_name) {
                return true;
            }
            i += 1;
        }
        false
    }
}

/// Browser family named by `name`, compared case-insensitively; any
/// unrecognized name selects Chrome.
pub fn browser_type_from_name(name: &str) -> (r: BrowserType)
    ensures
        eq_ignore_case(name@, "firefox"@) ==> r is Firefox,
        eq_ignore_case(name@, "edge"@) ==> r is Edge,
        eq_ignore_case(name@, "safari"@) ==> r is Safari,
        !eq_ignore_case(name@, "firefox"@) && !eq_ignore_case(name@, "edge"@)
            && !eq_ignore_case(name@, "safari"@) ==> r is Chrome,
{
    proof {
        reveal_strlit("firefox");
        reveal_strlit("edge");
        reveal_strlit("safari");
    }
    if eq_ignore_ascii_case(name, "firefox") {
        BrowserType::Firefox
    } else if eq_ignore_ascii_case(name, "edge") {
        BrowserType::Edge
    } else if eq_ignore_ascii_case(name, "safari") {
        BrowserType::Safari
    } else {
        BrowserType::Chrome
    }
}

/// Transport mode named by `name`, compared case-insensitively; any
/// unrecognized name selects stdio.
pub fn transport_from_name(name: &str) -> (r: TransportMode)
    ensures
        eq_ignore_case(name@, "http"@) ==> r is Http,
        !eq_ignore_case(name@, "http"@) ==> r is Stdio,
{
    if eq_ignore_ascii_case(name, "http") {
        TransportMode::Http
    } else {
        TransportMode::Stdio
    }
}

/// Only the Chrome family is currently supported as an automation target.
pub fn browser_type_supported(bt: BrowserType) -> (r: bool)
    ensures
        r == (bt is Chrome),
{
    match bt {
        BrowserType::Chrome => true,
        _ => false,
    }
}

/// Default for the clear-before-typing flag of the typing action.
pub fn default_true() -> (r: bool)
    ensures
        r,
{
    true
}

/// Default scroll magnitude in pixels.
pub fn default_magnitude() -> (r: i64)
    ensures
        r == 800,
{
    800
}

} // verus!
