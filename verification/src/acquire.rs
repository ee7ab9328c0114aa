//! The acquisition protocol: locating a usable driver or browser binary,
//! matching its version, downloading under a cross-process lock, launching,
//! and polling the endpoint until it accepts connections.

use vstd::prelude::*;

verus! {

use crate::config::BrowserType;
use crate::errors::AcquireError;

/// Maximum time to wait for a launched endpoint to accept connections, in
/// milliseconds; exceeding it is a hard failure.
pub const ACQUIRE_READY_TIMEOUT_MS: u64 = 30000;

/// Interval between readiness checks, in milliseconds.
pub const HEALTH_CHECK_INTERVAL_MS: u64 = 100;

/// Manages the browser process launched for the event-driven protocol.
pub struct BrowserManager {
    /// Process id of the browser, if this manager launched one.
    pub browser_process: Option<u32>,
    /// The debugging port being used.
    pub cdp_port: u16,
}

impl BrowserManager {
    /// A manager that owns no process yet, on the default debugging port.
    pub fn new() -> (r: BrowserManager)
        ensures
            r.browser_process is None,
            r.cdp_port == 9222,
    {
        BrowserManager { browser_process: None, cdp_port: 9222 }
    }

    /// Record the launched child process.
    pub fn record_launch(&mut self, pid: u32, port: u16)
        ensures
            final(self).browser_process == Some(pid),
            final(self).cdp_port == port,
    {
        self.browser_process = Some(pid);
        self.cdp_port = port;
    }

    /// Take the owned process for teardown, if any; stopping twice finds
    /// nothing the second time, so teardown happens exactly once.
    pub fn stop(&mut self) -> (r: Option<u32>)
        ensures
            r == old(self).browser_process,
            final(self).browser_process is None,
            final(self).cdp_port == old(self).cdp_port,
    {
        self.browser_process.take()
    }
}

impl Default for BrowserManager {
    /// Same as a fresh manager.
    fn default() -> (r: BrowserManager)
        ensures
            r.browser_process is None,
            r.cdp_port == 9222,
    {
        BrowserManager::new()
    }
}

/// Manages the driver process launched for the polling protocol.
pub struct DriverManager {
    /// Process id of the driver, if this manager launched one.
    pub process: Option<u32>,
    /// The port the driver listens on.
    pub port: u16,
}

impl DriverManager {
    /// A manager that owns no process yet, on the default driver port.
    pub fn new() -> (r: DriverManager)
        ensures
            r.process is None,
            r.port == 9515,
    {
        DriverManager { process: None, port: 9515 }
    }

    /// Record the launched child process.
    pub fn record_launch(&mut self, pid: u32, port: u16)
        ensures
            final(self).process == Some(pid),
            final(self).port == port,
    {
        self.process = Some(pid);
        self.port = port;
    }

    /// Take the owned process for teardown, if any; stopping twice finds
    /// nothing the second time, so teardown happens exactly once.
    pub fn stop(&mut self) -> (r: Option<u32>)
        ensures
            r == old(self).process,
            final(self).process is None,
            final(self).port == old(self).port,
    {
        self.process.take()
    }
}

impl Default for DriverManager {
    /// Same as a fresh manager.
    fn default() -> (r: DriverManager)
        ensures
            r.process is None,
            r.port == 9515,
    {
        DriverManager::new()
    }
}

/// Where a binary was resolved from.
#[derive(Clone, Copy, Debug, PartialEq, Eq, Structural)]
pub enum BinarySource {
    /// The explicitly configured path.
    Configured,
    /// Found under a known name on the execution search path.
    OnPath,
    /// Found in a table of common installation directories.
    CommonLocation,
    /// To be downloaded into the version-keyed cache.
    Downloaded,
}

/// Resolution order for the driver or browser binary: the configured path
/// if it exists, then the search path, then common installation
/// directories, then a download if enabled; otherwise the binary is not
/// found.
pub fn resolve_binary_source(
    configured_exists: Option<bool>,
    on_path: bool,
    at_common_location: bool,
    auto_download: bool,
) -> (r: Result<BinarySource, AcquireError>)
    ensures
        configured_exists == Some(true) ==> r == Ok::<BinarySource, AcquireError>(
            BinarySource::Configured,
        ),
        configured_exists != Some(true) && on_path ==> r == Ok::<BinarySource, AcquireError>(
            BinarySource::OnPath,
        ),
        configured_exists != Some(true) && !on_path && at_common_location ==> r == Ok::<
            BinarySource,
            AcquireError,
        >(BinarySource::CommonLocation),
        configured_exists != Some(true) && !on_path && !at_common_location && auto_download ==> r
            == Ok::<BinarySource, AcquireError>(BinarySource::Downloaded),
        configured_exists != Some(true) && !on_path && !at_common_location && !auto_download ==> r
            == Err::<BinarySource, AcquireError>(AcquireError::BinaryNotFound),
{
    match configured_exists {
        Some(true) => Ok(BinarySource::Configured),
        _ => {
            if on_path {
                Ok(BinarySource::OnPath)
            } else if at_common_location {
                Ok(BinarySource::CommonLocation)
            } else if auto_download {
                Ok(BinarySource::Downloaded)
            } else {
                Err(AcquireError::BinaryNotFound)
            }
        },
    }
}

/// Driver executable name for a browser family.
pub fn driver_name_for(bt: BrowserType) -> (r: &'static str)
    ensures
        bt is Chrome ==> r@ == "chromedriver"@,
        bt is Firefox ==> r@ == "geckodriver"@,
        bt is Edge ==> r@ == "msedgedriver"@,
        bt is Safari ==> r@ == "safaridriver"@,
{
    match bt {
        BrowserType::Chrome => "chromedriver",
        BrowserType::Firefox => "geckodriver",
        BrowserType::Edge => "msedgedriver",
        BrowserType::Safari => "safaridriver",
    }
}

/// Only the Chrome family supports the event-driven debugging protocol.
pub fn check_cdp_browser_type(bt: BrowserType) -> (r: Result<(), AcquireError>)
    ensures
        r is Ok <==> bt is Chrome,
        r is Err ==> r == Err::<(), AcquireError>(AcquireError::BinaryNotFound),
{
    match bt {
        BrowserType::Chrome => Ok(()),
        _ => Err(AcquireError::BinaryNotFound),
    }
}

/// One step of the endpoint readiness poll.
#[derive(Clone, Copy, Debug, PartialEq, Eq, Structural)]
pub enum PortPoll {
    /// The endpoint accepted a connection.
    Ready,
    /// Not ready yet; check again after the health-check interval.
    Wait,
}

/// Decide one readiness poll step: a connection means ready, a refusal
/// within the ceiling means wait, and exceeding the ceiling is a hard
/// failure, since an endpoint that never opens its port is unrecoverable.
pub fn port_ready_step(connected: bool, elapsed_ms: u64) -> (r: Result<PortPoll, AcquireError>)
    ensures
        connected ==> r == Ok::<PortPoll, AcquireError>(PortPoll::Ready),
        !connected && elapsed_ms < ACQUIRE_READY_TIMEOUT_MS ==> r == Ok::<PortPoll, AcquireError>(
            PortPoll::Wait,
        ),
        !connected && elapsed_ms >= ACQUIRE_READY_TIMEOUT_MS ==> r == Err::<PortPoll, AcquireError>(
            AcquireError::AcquisitionTimeout,
        ),
{
    if connected {
        Ok(PortPoll::Ready)
    } else if elapsed_ms < ACQUIRE_READY_TIMEOUT_MS {
        Ok(PortPoll::Wait)
    } else {
        Err(AcquireError::AcquisitionTimeout)
    }
}

/// Before launching, a port already bound by an unrelated process is
/// refused, to avoid silently talking to the wrong process.
pub fn check_port_free(port_in_use: bool) -> (r: Result<(), AcquireError>)
    ensures
        r is Ok <==> !port_in_use,
        r is Err ==> r == Err::<(), AcquireError>(AcquireError::PortInUse),
{
    if port_in_use {
        Err(AcquireError::PortInUse)
    } else {
        Ok(())
    }
}

/// One driver release listed in the remote manifest.
#[derive(Clone, Copy, Debug, PartialEq, Eq, Structural)]
pub struct DriverRelease {
    /// Major version of the release.
    pub major: u32,
    /// Minor version of the release.
    pub minor: u32,
    /// Patch version of the release.
    pub patch: u32,
    /// Whether the release is a stable one.
    pub stable: bool,
}

/// Version order on releases: major, then minor, then patch.
pub open spec fn release_le(a: DriverRelease, b: DriverRelease) -> bool {
    a.major < b.major || (a.major == b.major && (a.minor < b.minor || (a.minor == b.minor
        && a.patch <= b.patch)))
}

/// Whether the release compares less than or equal, by version.
pub fn release_le_exec(a: &DriverRelease, b: &DriverRelease) -> (r: bool)
    ensures
        r == release_le(*a, *b),
{
    a.major < b.major || (a.major == b.major && (a.minor < b.minor || (a.minor == b.minor
        && a.patch <= b.patch)))
}

/// Select the driver release for a browser major version: the newest
/// release of the same major, or — when no release matches the major — the
/// manifest's newest stable release, since a slightly mismatched stable
/// driver is usually still more functional than failing outright. `None`
/// only when neither exists.
pub fn select_driver(manifest: &Vec<DriverRelease>, browser_major: u32) -> (r: Option<
    DriverRelease,
>)
    ensures
        (exists|i: int| 0 <= i < manifest@.len() && manifest@[i].major == browser_major) ==> (
        r matches Some(d) && d.major == browser_major && (exists|i: int|
            0 <= i < manifest@.len() && manifest@[i] == d) && (forall|i: int|
            0 <= i < manifest@.len() && manifest@[i].major == browser_major ==> release_le(
                manifest@[i],
                d,
            ))),
        !(exists|i: int| 0 <= i < manifest@.len() && manifest@[i].major == browser_major) && (
        exists|i: int| 0 <= i < manifest@.len() && manifest@[i].stable) ==> (r matches Some(d)
            && d.stable && (exists|i: int| 0 <= i < manifest@.len() && manifest@[i] == d) && (
        forall|i: int|
            0 <= i < manifest@.len() && manifest@[i].stable ==> release_le(manifest@[i], d))),
        !(exists|i: int|
            0 <= i < manifest@.len() && (manifest@[i].major == browser_major
                || manifest@[i].stable)) ==> r is None,
{
    let n = manifest.len();
    let mut best_match: Option<DriverRelease> = None;
    let mut best_stable: Option<DriverRelease> = None;
    let mut i: usize = 0;
    while i < n
        invariant
            n == manifest@.len(),
            0 <= i <= n,
            best_match matches Some(d) ==> d.major == browser_major && (exists|j: int|
                0 <= j < manifest@.len() && manifest@[j] == d),
            best_match is None ==> forall|j: int|
                0 <= j < i ==> manifest@[j].major != browser_major,
            forall|j: int|
                0 <= j < i && manifest@[j].major == browser_major ==> (best_match matches Some(d)
                    && release_le(manifest@[j], d)),
            best_stable matches Some(d) ==> d.stable && (exists|j: int|
                0 <= j < manifest@.len() && manifest@[j] == d),
            best_stable is None ==> forall|j: int| 0 <= j < i ==> !manifest@[j].stable,
            forall|j: int|
                0 <= j < i && manifest@[j].stable ==> (best_stable matches Some(d) && release_le(
                    manifest@[j],
                    d,
                )),
        decreases n - i,
    {
        let entry = manifest[i];
        if entry.major == browser_major {
            best_match = match best_match {
                None => Some(entry),
                Some(cur) => {
                    if release_le_exec(&cur, &entry) {
                        Some(entry)
                    } else {
                        Some(cur)
                    }
                },
            };
        }
        if entry.stable {
            best_stable = match best_stable {
                None => Some(entry),
                Some(cur) => {
                    if release_le_exec(&cur, &entry) {
                        Some(entry)
                    } else {
                        Some(cur)
                    }
                },
            };
        }
        i += 1;
    }
    match best_match {
        Some(d) => Some(d),
        None => best_stable,
    }
}

/// Whether an archive entry's base filename is `name`: the path ends with
/// `name` and the character before it, if any, is the path separator. For a
/// name without separators this names exactly the entries whose last path
/// component is `name`, in flat and nested layouts alike.
pub open spec fn entry_matches(path: Seq<char>, name: Seq<char>) -> bool {
    path.len() >= name.len() && path.subrange(path.len() - name.len(), path.len() as int) == name
        && (path.len() == name.len() || path[path.len() - name.len() - 1] == '/')
}

/// Find the first archive entry whose base filename is the expected
/// executable name.
pub fn find_archive_entry(entries: &Vec<String>, expected: &str) -> (r: Option<usize>)
    ensures
        r matches Some(i) ==> 0 <= i < entries@.len() && entry_matches(
            entries@[i as int]@,
            expected@,
        ) && (forall|j: int| 0 <= j < i ==> !entry_matches(entries@[j]@, expected@)),
        r is None ==> forall|j: int|
            0 <= j < entries@.len() ==> !entry_matches(entries@[j]@, expected@),
{
    let n = entries.len();
    let mut i: usize = 0;
    while i < n
        invariant
            n == entries@.len(),
            0 <= i <= n,
            forall|j: int| 0 <= j < i ==> !entry_matches(entries@[j]@, expected@),
        decreases n - i,
    {
        if entry_matches_exec(entries[i].as_str(), expected) {
            return Some(i);
        }
        i += 1;
    }
    None
}

/// Whether the path's base filename is `name`.
fn entry_matches_exec(path: &str, name: &str) -> (r: bool)
    ensures
        r == entry_matches(path@, name@),
{
    let plen = path.unicode_len();
    let nlen = name.unicode_len();
    if plen < nlen {
        return false;
    }
    let start = plen - nlen;
    let mut k: usize = 0;
    while k < nlen
        invariant
            plen == path@.len(),
            nlen == name@.len(),
            start == plen - nlen,
            0 <= k <= nlen,
            forall|j: int| 0 <= j < k ==> path@[start + j] == name@[j],
        decreases nlen - k,
    {
        if path.get_char(start + k) != name.get_char(k) {
            proof {
                assert(path@.subrange(start as int, plen as int)[k as int] != name@[k as int]);
            }
            return false;
        }
        k += 1;
    }
    proof {
        assert(path@.subrange(start as int, plen as int) =~= name@);
    }
    if start == 0 {
        true
    } else {
        path.get_char(start - 1) == '/'
    }
}

/// State of the version-keyed download cache shared between processes: the
/// advisory lock file, the cached binary, and how many downloads have run.
#[derive(Clone, Copy, Debug, PartialEq, Eq, Structural)]
pub struct DownloadCache {
    /// Whether the advisory lock file exists on disk.
    pub lock_file_exists: bool,
    /// Whether some acquirer currently holds the lock.
    pub lock_held: bool,
    /// Whether the binary is present in the per-version cache directory.
    pub cached: bool,
    /// Number of downloads that have run against this cache entry.
    pub download_count: u64,
}

impl DownloadCache {
    /// A fresh cache entry: nothing cached, no lock, no downloads.
    pub fn new() -> (r: DownloadCache)
        ensures
            !r.lock_file_exists,
            !r.lock_held,
            !r.cached,
            r.download_count == 0,
    {
        DownloadCache { lock_file_exists: false, lock_held: false, cached: false, download_count: 0 }
    }

    /// Acquire the advisory lock. The lock serializes acquirers, so taking
    /// it requires that nobody holds it; a waiting acquirer simply runs
    /// later.
    pub fn acquire_lock(&mut self)
        requires
            !old(self).lock_held,
        ensures
            *final(self) == (DownloadCache { lock_held: true, lock_file_exists: true, ..*old(self) }),
    {
        self.lock_held = true;
        self.lock_file_exists = true;
    }

    /// Check the cache and download only on a miss. The check runs under
    /// the lock, after it was acquired, which closes the check-then-act
    /// race. Returns whether a download ran.
    pub fn fetch_if_missing(&mut self) -> (downloaded: bool)
        requires
            old(self).lock_held,
            old(self).download_count < u64::MAX,
        ensures
            downloaded == !old(self).cached,
            *final(self) == (DownloadCache {
                cached: true,
                download_count: if old(self).cached {
                    old(self).download_count
                } else {
                    (old(self).download_count + 1) as u64
                },
                ..*old(self)
            }),
    {
        if self.cached {
            false
        } else {
            self.download_count = self.download_count + 1;
            self.cached = true;
            true
        }
    }

    /// Release the advisory lock; the lock file is removed on every exit
    /// path, including errors, by scope-bound cleanup.
    pub fn release_lock(&mut self)
        requires
            old(self).lock_held,
        ensures
            *final(self) == (DownloadCache {
                lock_held: false,
                lock_file_exists: false,
                ..*old(self)
            }),
    {
        self.lock_held = false;
        self.lock_file_exists = false;
    }

    /// One whole acquisition: lock, check, download on a miss, unlock.
    /// Afterwards the binary is cached and the lock file is gone.
    pub fn acquire_version(&mut self) -> (downloaded: bool)
        requires
            !old(self).lock_held,
            old(self).download_count < u64::MAX,
        ensures
            *final(self) == acquire_spec(*old(self)),
            downloaded == !old(self).cached,
            final(self).cached,
            !final(self).lock_held,
            !final(self).lock_file_exists,
    {
        self.acquire_lock();
        let downloaded = self.fetch_if_missing();
        self.release_lock();
        downloaded
    }
}

/// State after one whole acquisition.
pub open spec fn acquire_spec(c: DownloadCache) -> DownloadCache {
    DownloadCache {
        lock_held: false,
        lock_file_exists: false,
        cached: true,
        download_count: if c.cached {
            c.download_count
        } else {
            (c.download_count + 1) as u64
        },
    }
}

/// Two acquisitions of the same version — in the order the advisory lock
/// serializes them — run exactly one download; both end with a valid
/// cached binary and the lock file does not exist after either completes.
pub proof fn lemma_single_download(c: DownloadCache)
    requires
        !c.cached,
        !c.lock_held,
        c.download_count < u64::MAX,
    ensures
        acquire_spec(c).cached,
        acquire_spec(acquire_spec(c)).cached,
        acquire_spec(acquire_spec(c)).download_count == c.download_count + 1,
        !acquire_spec(c).lock_file_exists,
        !acquire_spec(acquire_spec(c)).lock_file_exists,
{
}

} // verus!
