//! Launch planning: endpoint addresses, command-line arguments and the
//! strategy for producing a reachable control endpoint.

use vstd::prelude::*;

verus! {

use vstd::string::StringSliceAdditionalSpecFns;

use crate::text::append_str_bytes;
use crate::text::append_u64;
use crate::text::dec_digits;
use crate::text::has_prefix;
use crate::text::str_has_prefix;

/// Bytes of the polling driver's endpoint URL for a port.
pub open spec fn driver_url_spec(port: u16) -> Seq<u8> {
    "http://localhost:".spec_bytes() + dec_digits(port as nat)
}

/// Build the polling driver's endpoint URL.
pub fn driver_url_bytes(port: u16) -> (r: Vec<u8>)
    ensures
        r@ == driver_url_spec(port),
{
    let mut buf: Vec<u8> = Vec::new();
    append_str_bytes(&mut buf, "http://localhost:");
    append_u64(&mut buf, port as u64);
    proof {
        assert(buf@ =~= driver_url_spec(port));
    }
    buf
}

/// Bytes of the local debugging endpoint URL for a port.
pub open spec fn debug_url_spec(port: u16) -> Seq<u8> {
    "http://127.0.0.1:".spec_bytes() + dec_digits(port as nat)
}

/// Build the local debugging endpoint URL.
pub fn debug_url_bytes(port: u16) -> (r: Vec<u8>)
    ensures
        r@ == debug_url_spec(port),
{
    let mut buf: Vec<u8> = Vec::new();
    append_str_bytes(&mut buf, "http://127.0.0.1:");
    append_u64(&mut buf, port as u64);
    proof {
        assert(buf@ =~= debug_url_spec(port));
    }
    buf
}

/// Bytes of the driver's port argument.
pub open spec fn port_arg_spec(port: u16) -> Seq<u8> {
    "--port=".spec_bytes() + dec_digits(port as nat)
}

/// Build the driver's port argument.
pub fn port_arg_bytes(port: u16) -> (r: Vec<u8>)
    ensures
        r@ == port_arg_spec(port),
{
    let mut buf: Vec<u8> = Vec::new();
    append_str_bytes(&mut buf, "--port=");
    append_u64(&mut buf, port as u64);
    proof {
        assert(buf@ =~= port_arg_spec(port));
    }
    buf
}

/// Bytes of the browser's remote-debugging-port argument.
pub open spec fn debug_port_arg_spec(port: u16) -> Seq<u8> {
    "--remote-debugging-port=".spec_bytes() + dec_digits(port as nat)
}

/// Build the browser's remote-debugging-port argument.
pub fn debug_port_arg_bytes(port: u16) -> (r: Vec<u8>)
    ensures
        r@ == debug_port_arg_spec(port),
{
    let mut buf: Vec<u8> = Vec::new();
    append_str_bytes(&mut buf, "--remote-debugging-port=");
    append_u64(&mut buf, port as u64);
    proof {
        assert(buf@ =~= debug_port_arg_spec(port));
    }
    buf
}

/// Bytes of the window-size argument.
pub open spec fn window_size_arg_spec(width: u32, height: u32) -> Seq<u8> {
    "--window-size=".spec_bytes() + dec_digits(width as nat) + ",".spec_bytes() + dec_digits(
        height as nat,
    )
}

/// Build the window-size argument.
pub fn window_size_arg_bytes(width: u32, height: u32) -> (r: Vec<u8>)
    ensures
        r@ == window_size_arg_spec(width, height),
{
    let mut buf: Vec<u8> = Vec::new();
    append_str_bytes(&mut buf, "--window-size=");
    append_u64(&mut buf, width as u64);
    append_str_bytes(&mut buf, ",");
    append_u64(&mut buf, height as u64);
    proof {
        assert(buf@ =~= window_size_arg_spec(width, height));
    }
    buf
}

/// The byte sequences held by a list of arguments.
pub open spec fn views_of(args: Seq<Vec<u8>>) -> Seq<Seq<u8>> {
    args.map_values(|a: Vec<u8>| a@)
}

/// Append one computed argument.
fn push_arg(args: &mut Vec<Vec<u8>>, v: Vec<u8>)
    ensures
        views_of(final(args)@) == views_of(old(args)@).push(v@),
{
    let ghost vv = v@;
    args.push(v);
    proof {
        assert(views_of(args@) =~= views_of(old(args)@).push(vv));
    }
}

/// Whether an initial URL may be handed to the browser's command line: it
/// must carry an explicit scheme.
pub open spec fn url_has_scheme(url: Seq<char>) -> bool {
    has_prefix(url, "http://"@) || has_prefix(url, "https://"@) || has_prefix(url, "file://"@)
}

/// Command line of the browser launched with a debugging port: the port,
/// the standard hardening arguments, the sandbox and headless flags only in
/// headless mode, the stealth flags only in undetected mode, and the
/// initial URL only when it carries an explicit scheme.
pub open spec fn cdp_launch_args_spec(
    headless: bool,
    undetected: bool,
    width: u32,
    height: u32,
    cdp_port: u16,
    initial_url: Seq<char>,
) -> Seq<Seq<u8>> {
    seq![
        debug_port_arg_spec(cdp_port),
        "--disable-extensions".spec_bytes(),
        "--disable-plugins".spec_bytes(),
        "--disable-dev-shm-usage".spec_bytes(),
        "--disable-background-networking".spec_bytes(),
        "--disable-default-apps".spec_bytes(),
        "--disable-sync".spec_bytes(),
    ] + (if headless {
        seq!["--no-sandbox".spec_bytes()]
    } else {
        Seq::<Seq<u8>>::empty()
    }) + seq![
        "--no-first-run".spec_bytes(),
        "--disable-popup-blocking".spec_bytes(),
        window_size_arg_spec(width, height),
    ] + (if headless {
        seq!["--headless=new".spec_bytes()]
    } else {
        Seq::<Seq<u8>>::empty()
    }) + (if undetected {
        seq![
            "--disable-blink-features=AutomationControlled".spec_bytes(),
            "--disable-infobars".spec_bytes(),
            "--disable-notifications".spec_bytes(),
        ]
    } else {
        Seq::<Seq<u8>>::empty()
    }) + (if url_has_scheme(initial_url) {
        seq![vstd::utf8::encode_utf8(initial_url)]
    } else {
        Seq::<Seq<u8>>::empty()
    })
}

/// Build the browser's launch arguments for the event-driven protocol.
pub fn cdp_launch_args(
    headless: bool,
    undetected: bool,
    width: u32,
    height: u32,
    cdp_port: u16,
    initial_url: &str,
) -> (r: Vec<Vec<u8>>)
    ensures
        views_of(r@) == cdp_launch_args_spec(
            headless,
            undetected,
            width,
            height,
            cdp_port,
            initial_url@,
        ),
{
    let mut args: Vec<Vec<u8>> = Vec::new();
    push_arg(&mut args, debug_port_arg_bytes(cdp_port));
    append_lit_arg(&mut args, "--disable-extensions");
    append_lit_arg(&mut args, "--disable-plugins");
    append_lit_arg(&mut args, "--disable-dev-shm-usage");
    append_lit_arg(&mut args, "--disable-background-networking");
    append_lit_arg(&mut args, "--disable-default-apps");
    append_lit_arg(&mut args, "--disable-sync");
    if headless {
        append_lit_arg(&mut args, "--no-sandbox");
    }
    append_lit_arg(&mut args, "--no-first-run");
    append_lit_arg(&mut args, "--disable-popup-blocking");
    push_arg(&mut args, window_size_arg_bytes(width, height));
    if headless {
        append_lit_arg(&mut args, "--headless=new");
    }
    if undetected {
        append_lit_arg(&mut args, "--disable-blink-features=AutomationControlled");
        append_lit_arg(&mut args, "--disable-infobars");
        append_lit_arg(&mut args, "--disable-notifications");
    }
    if str_has_prefix(initial_url, "http://") || str_has_prefix(initial_url, "https://")
        || str_has_prefix(initial_url, "file://") {
        push_arg(&mut args, initial_url.as_bytes_vec());
    }
    proof {
        assert(views_of(args@) =~= cdp_launch_args_spec(
            headless,
            undetected,
            width,
            height,
            cdp_port,
            initial_url@,
        ));
    }
    args
}

/// Capability arguments of the browser driven over the polling protocol:
/// the headless flag when configured, the standard hardening arguments and
/// the window size.
pub open spec fn webdriver_caps_args_spec(headless: bool, width: u32, height: u32) -> Seq<Seq<u8>> {
    (if headless {
        seq!["--headless".spec_bytes()]
    } else {
        Seq::<Seq<u8>>::empty()
    }) + seq![
        "--disable-extensions".spec_bytes(),
        "--disable-plugins".spec_bytes(),
        "--disable-dev-shm-usage".spec_bytes(),
        "--disable-background-networking".spec_bytes(),
        "--disable-default-apps".spec_bytes(),
        "--disable-sync".spec_bytes(),
        "--no-sandbox".spec_bytes(),
        window_size_arg_spec(width, height),
    ]
}

/// Build the capability arguments for the polling protocol.
pub fn webdriver_caps_args(headless: bool, width: u32, height: u32) -> (r: Vec<Vec<u8>>)
    ensures
        views_of(r@) == webdriver_caps_args_spec(headless, width, height),
{
    let mut args: Vec<Vec<u8>> = Vec::new();
    if headless {
        append_lit_arg(&mut args, "--headless");
    }
    append_lit_arg(&mut args, "--disable-extensions");
    append_lit_arg(&mut args, "--disable-plugins");
    append_lit_arg(&mut args, "--disable-dev-shm-usage");
    append_lit_arg(&mut args, "--disable-background-networking");
    append_lit_arg(&mut args, "--disable-default-apps");
    append_lit_arg(&mut args, "--disable-sync");
    append_lit_arg(&mut args, "--no-sandbox");
    push_arg(&mut args, window_size_arg_bytes(width, height));
    proof {
        assert(views_of(args@) =~= webdriver_caps_args_spec(
            headless,
            width,
            height,
        ));
    }
    args
}

/// Append one fixed argument.
fn append_lit_arg(args: &mut Vec<Vec<u8>>, arg: &str)
    ensures
        views_of(final(args)@) == views_of(old(args)@).push(arg.spec_bytes()),
{
    args.push(arg.as_bytes_vec());
    proof {
        assert(views_of(args@) =~= views_of(old(args)@).push(arg.spec_bytes()));
    }
}

/// How the event-driven session produces its endpoint: an open session
/// stays as it is; without auto-start an externally managed endpoint is
/// connected to when one is configured; otherwise a browser is launched.
pub enum OpenStrategy {
    /// The session is already open; return the current observation.
    AlreadyOpen,
    /// Connect to the configured external endpoint.
    ConnectExisting { url: String },
    /// Launch a new browser process.
    LaunchNew,
}

/// Decide how to open the event-driven session.
pub fn cdp_open_strategy(handle_open: bool, auto_start: bool, cdp_url: &Option<String>) -> (r:
    OpenStrategy)
    ensures
        handle_open ==> r is AlreadyOpen,
        !handle_open && !auto_start && cdp_url is Some ==> (
        r matches OpenStrategy::ConnectExisting { url } && url == cdp_url.unwrap()),
        !handle_open && (auto_start || cdp_url is None) ==> r is LaunchNew,
{
    if handle_open {
        OpenStrategy::AlreadyOpen
    } else if !auto_start {
        match cdp_url {
            Some(u) => OpenStrategy::ConnectExisting { url: u.clone() },
            None => OpenStrategy::LaunchNew,
        }
    } else {
        OpenStrategy::LaunchNew
    }
}

/// How the polling driver endpoint is produced: the configured URL as it
/// is, or a launch on the configured port.
pub enum DriverReadyPlan {
    /// Auto-launch is off; use the configured endpoint.
    UseExisting,
    /// Launch the driver on this port and poll it until ready.
    LaunchOnPort { port: u16 },
}

/// Decide how to make the polling driver ready.
pub fn driver_ready_plan(auto_launch_driver: bool, driver_port: u16) -> (r: DriverReadyPlan)
    ensures
        !auto_launch_driver ==> r is UseExisting,
        auto_launch_driver ==> r == (DriverReadyPlan::LaunchOnPort { port: driver_port }),
{
    if auto_launch_driver {
        DriverReadyPlan::LaunchOnPort { port: driver_port }
    } else {
        DriverReadyPlan::UseExisting
    }
}

/// The stealth snippet applied in undetected mode: it masks the
/// automation-controlled markers the page could read.
pub fn stealth_script() -> (r: &'static str)
    ensures
        r@
            == "Object.defineProperty(navigator, 'webdriver', { get: () => undefined }); Object.defineProperty(navigator, 'plugins', { get: () => ([ { name: 'Chrome PDF Plugin', filename: 'internal-pdf-viewer', description: 'Portable Document Format', length: 1 } ]) }); Object.defineProperty(navigator, 'languages', { get: () => ['en-US', 'en'] });"@,
{
    "Object.defineProperty(navigator, 'webdriver', { get: () => undefined }); Object.defineProperty(navigator, 'plugins', { get: () => ([ { name: 'Chrome PDF Plugin', filename: 'internal-pdf-viewer', description: 'Portable Document Format', length: 1 } ]) }); Object.defineProperty(navigator, 'languages', { get: () => ['en-US', 'en'] });"
}

} // verus!
