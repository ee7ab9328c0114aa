//! Observations: the canonical result of every action, a screenshot with
//! the page URL.

use vstd::prelude::*;

verus! {

/// Environment state returned by browser actions.
#[derive(Debug)]
pub struct EnvState {
    /// Screenshot in PNG format, base64 encoded.
    pub screenshot: String,
    /// Current URL of the page.
    pub url: String,
}

/// Descriptor of one open browser tab; valid only while the owning session
/// is open.
#[derive(Debug)]
pub struct TabInfo {
    /// Opaque window handle of the tab.
    pub handle: String,
    /// URL shown in the tab.
    pub url: String,
    /// Title of the tab.
    pub title: String,
    /// Whether the tab is the active one.
    pub active: bool,
    /// Error of the last navigation, if any.
    pub navigation_error: Option<String>,
}

/// The base64 text that the standard alphabet with padding assigns to a
/// byte sequence.
pub uninterp spec fn base64_of(bytes: Seq<u8>) -> Seq<char>;

/// Relies on the base64 crate's `STANDARD` engine: the encoding depends on
/// the input bytes alone, and with padding it yields four characters for
/// every started group of three input bytes.
#[verifier::external_body]
fn encode_base64(bytes: &Vec<u8>) -> (r: String)
    requires
        bytes@.len() <= 0x3000000000000000,
    ensures
        r@ == base64_of(bytes@),
        r@.len() == 4 * ((bytes@.len() + 2) / 3),
{
    base64::Engine::encode(&base64::engine::general_purpose::STANDARD, bytes.as_slice())
}

/// Build the observation of a freshly captured page state: the screenshot
/// bytes are base64 encoded, the URL passes through. A non-empty
/// screenshot yields a non-empty payload.
pub fn make_observation(screenshot_png: &Vec<u8>, url: String) -> (r: EnvState)
    requires
        screenshot_png@.len() <= 0x3000000000000000,
    ensures
        r.screenshot@ == base64_of(screenshot_png@),
        r.screenshot@.len() == 4 * ((screenshot_png@.len() + 2) / 3),
        r.url == url,
        screenshot_png@.len() > 0 ==> r.screenshot@.len() > 0,
{
    EnvState { screenshot: encode_base64(screenshot_png), url }
}

/// The URL of a page whose protocol client reported none.
pub fn url_or_blank(url: Option<String>) -> (r: String)
    ensures
        url matches Some(u) ==> r == u,
        url is None ==> r@ == "about:blank"@,
{
    match url {
        Some(u) => u,
        None => "about:blank".to_owned(),
    }
}

} // verus!
