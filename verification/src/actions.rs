//! The action backend's decision layer: input validation and the exact
//! plan every primitive action follows, independent of the protocol client
//! that executes it.

use vstd::prelude::*;

verus! {

use vstd::string::StringSliceAdditionalSpecFns;

use crate::config::ProtocolKind;
use crate::errors::ActionError;
use crate::keys::plan_key_combination;
use crate::keys::KeyPlan;
use crate::script::click_script;
use crate::script::click_script_bytes;
use crate::script::drag_script;
use crate::script::drag_script_bytes;
use crate::script::focus_script;
use crate::script::focus_script_bytes;
use crate::script::hover_script;
use crate::script::hover_script_bytes;
use crate::script::key_event_script;
use crate::script::key_event_script_bytes;
use crate::script::scroll_at_script;
use crate::script::scroll_at_script_bytes;
use crate::script::type_script;
use crate::script::type_script_bytes;
use crate::text::eq_ignore_case;
use crate::text::eq_ignore_ascii_case;
use crate::text::has_prefix;
use crate::text::str_has_prefix;

/// Whether a coordinate lies inside the accepted range: non-negative and at
/// most twice the configured viewport in each axis.
pub open spec fn coords_ok(x: int, y: int, width: int, height: int) -> bool {
    0 <= x && 0 <= y && x <= 2 * width && y <= 2 * height
}

/// Reject coordinates that are negative or more than twice the viewport.
pub fn validate_coordinates(x: i64, y: i64, width: u32, height: u32) -> (r: Result<
    (),
    ActionError,
>)
    ensures
        r is Ok <==> coords_ok(x as int, y as int, width as int, height as int),
        r is Err ==> r == Err::<(), ActionError>(ActionError::InvalidInput),
{
    if x < 0 || y < 0 {
        return Err(ActionError::InvalidInput);
    }
    if x > 2 * (width as i64) || y > 2 * (height as i64) {
        return Err(ActionError::InvalidInput);
    }
    Ok(())
}

/// Plan a click: validated coordinates yield the click script.
pub fn plan_click(x: i64, y: i64, width: u32, height: u32) -> (r: Result<Vec<u8>, ActionError>)
    ensures
        r is Ok <==> coords_ok(x as int, y as int, width as int, height as int),
        r is Ok ==> r.unwrap()@ == click_script_bytes(x as int, y as int),
        r is Err ==> r == Err::<Vec<u8>, ActionError>(ActionError::InvalidInput),
{
    validate_coordinates(x, y, width, height)?;
    Ok(click_script(x, y))
}

/// Plan a hover: validated coordinates yield the hover script.
pub fn plan_hover(x: i64, y: i64, width: u32, height: u32) -> (r: Result<Vec<u8>, ActionError>)
    ensures
        r is Ok <==> coords_ok(x as int, y as int, width as int, height as int),
        r is Ok ==> r.unwrap()@ == hover_script_bytes(x as int, y as int),
        r is Err ==> r == Err::<Vec<u8>, ActionError>(ActionError::InvalidInput),
{
    validate_coordinates(x, y, width, height)?;
    Ok(hover_script(x, y))
}

/// Plan for the typing action: focus the target, optionally clear it, then
/// insert the text and optionally press the enter key.
pub struct TypePlan {
    /// Script that clicks and focuses the element under the coordinate.
    pub focus: Vec<u8>,
    /// Script that inserts the escaped text at the focused element.
    pub insert: Vec<u8>,
    /// Whether existing content is cleared before typing.
    pub clear_before_typing: bool,
    /// Whether the enter key is pressed after typing.
    pub press_enter: bool,
}

/// Plan the typing action.
pub fn plan_type_text(
    x: i64,
    y: i64,
    text: &str,
    press_enter: bool,
    clear_before_typing: bool,
    width: u32,
    height: u32,
) -> (r: Result<TypePlan, ActionError>)
    ensures
        r is Ok <==> coords_ok(x as int, y as int, width as int, height as int),
        r is Ok ==> {
            let p = r.unwrap();
            p.focus@ == focus_script_bytes(x as int, y as int) && p.insert@ == type_script_bytes(
                text.spec_bytes(),
            ) && p.clear_before_typing == clear_before_typing && p.press_enter == press_enter
        },
        r is Err ==> r == Err::<TypePlan, ActionError>(ActionError::InvalidInput),
{
    validate_coordinates(x, y, width, height)?;
    Ok(
        TypePlan {
            focus: focus_script(x, y),
            insert: type_script(text),
            clear_before_typing,
            press_enter,
        },
    )
}

/// Direction of a scroll action.
#[derive(Clone, Copy, Debug, PartialEq, Eq, Structural)]
pub enum ScrollDirection {
    Up,
    Down,
    Left,
    Right,
}

/// Parse a scroll direction name, case-insensitively; anything else is
/// malformed.
pub fn parse_direction(s: &str) -> (r: Option<ScrollDirection>)
    ensures
        eq_ignore_case(s@, "up"@) ==> r == Some(ScrollDirection::Up),
        eq_ignore_case(s@, "down"@) ==> r == Some(ScrollDirection::Down),
        eq_ignore_case(s@, "left"@) ==> r == Some(ScrollDirection::Left),
        eq_ignore_case(s@, "right"@) ==> r == Some(ScrollDirection::Right),
        !eq_ignore_case(s@, "up"@) && !eq_ignore_case(s@, "down"@) && !eq_ignore_case(s@, "left"@)
            && !eq_ignore_case(s@, "right"@) ==> r is None,
{
    proof {
        reveal_strlit("up");
        reveal_strlit("down");
        reveal_strlit("left");
        reveal_strlit("right");
        assert(!(eq_ignore_case(s@, "down"@) && eq_ignore_case(s@, "left"@))) by {
            if eq_ignore_case(s@, "down"@) && eq_ignore_case(s@, "left"@) {
                assert(crate::text::lower_u32(s@[0]) == crate::text::lower_u32("down"@[0]));
                assert(crate::text::lower_u32(s@[0]) == crate::text::lower_u32("left"@[0]));
            }
        };
    }
    if eq_ignore_ascii_case(s, "up") {
        Some(ScrollDirection::Up)
    } else if eq_ignore_ascii_case(s, "down") {
        Some(ScrollDirection::Down)
    } else if eq_ignore_ascii_case(s, "left") {
        Some(ScrollDirection::Left)
    } else if eq_ignore_ascii_case(s, "right") {
        Some(ScrollDirection::Right)
    } else {
        None
    }
}

/// The whole-document scroll script for a direction: eighty percent of a
/// page vertically, half a page horizontally.
pub fn scroll_document_script(d: ScrollDirection) -> (r: &'static str)
    ensures
        d is Up ==> r@ == "window.scrollBy(0, -window.innerHeight * 0.8);"@,
        d is Down ==> r@ == "window.scrollBy(0, window.innerHeight * 0.8);"@,
        d is Left ==> r@ == "window.scrollBy(-window.innerWidth * 0.5, 0);"@,
        d is Right ==> r@ == "window.scrollBy(window.innerWidth * 0.5, 0);"@,
{
    match d {
        ScrollDirection::Up => "window.scrollBy(0, -window.innerHeight * 0.8);",
        ScrollDirection::Down => "window.scrollBy(0, window.innerHeight * 0.8);",
        ScrollDirection::Left => "window.scrollBy(-window.innerWidth * 0.5, 0);",
        ScrollDirection::Right => "window.scrollBy(window.innerWidth * 0.5, 0);",
    }
}

/// Scroll deltas for a direction and magnitude: positive y is downward,
/// positive x is rightward.
pub fn scroll_deltas(d: ScrollDirection, magnitude: i64) -> (r: (i64, i64))
    requires
        magnitude > i64::MIN,
    ensures
        d is Up ==> r == (0i64, (-magnitude) as i64),
        d is Down ==> r == (0i64, magnitude),
        d is Left ==> r == ((-magnitude) as i64, 0i64),
        d is Right ==> r == (magnitude, 0i64),
{
    match d {
        ScrollDirection::Up => (0, -magnitude),
        ScrollDirection::Down => (0, magnitude),
        ScrollDirection::Left => (-magnitude, 0),
        ScrollDirection::Right => (magnitude, 0),
    }
}

/// Plan a positional scroll: validated coordinates and a well-formed
/// direction yield the positional scroll script with the direction's
/// deltas.
pub fn plan_scroll_at(
    x: i64,
    y: i64,
    direction: &str,
    magnitude: i64,
    width: u32,
    height: u32,
) -> (r: Result<Vec<u8>, ActionError>)
    requires
        magnitude > i64::MIN,
    ensures
        r is Ok <==> coords_ok(x as int, y as int, width as int, height as int) && (
        eq_ignore_case(direction@, "up"@) || eq_ignore_case(direction@, "down"@) || eq_ignore_case(
            direction@,
            "left"@,
        ) || eq_ignore_case(direction@, "right"@)),
        r is Ok ==> (eq_ignore_case(direction@, "up"@) ==> r.unwrap()@ == scroll_at_script_bytes(
            x as int,
            y as int,
            0,
            -(magnitude as int),
        )),
        r is Ok ==> (eq_ignore_case(direction@, "down"@) ==> r.unwrap()@ == scroll_at_script_bytes(
            x as int,
            y as int,
            0,
            magnitude as int,
        )),
        r is Ok ==> (eq_ignore_case(direction@, "left"@) ==> r.unwrap()@ == scroll_at_script_bytes(
            x as int,
            y as int,
            -(magnitude as int),
            0,
        )),
        r is Ok ==> (eq_ignore_case(direction@, "right"@) ==> r.unwrap()@
            == scroll_at_script_bytes(x as int, y as int, magnitude as int, 0)),
        r is Err ==> r == Err::<Vec<u8>, ActionError>(ActionError::InvalidInput),
{
    validate_coordinates(x, y, width, height)?;
    match parse_direction(direction) {
        None => Err(ActionError::InvalidInput),
        Some(d) => {
            let (dx, dy) = scroll_deltas(d, magnitude);
            Ok(scroll_at_script(x, y, dx, dy))
        },
    }
}

/// Plan a drag and drop: both coordinate pairs are validated, then the drag
/// script runs from start to destination.
pub fn plan_drag_and_drop(
    x: i64,
    y: i64,
    destination_x: i64,
    destination_y: i64,
    width: u32,
    height: u32,
) -> (r: Result<Vec<u8>, ActionError>)
    ensures
        r is Ok <==> coords_ok(x as int, y as int, width as int, height as int) && coords_ok(
            destination_x as int,
            destination_y as int,
            width as int,
            height as int,
        ),
        r is Ok ==> r.unwrap()@ == drag_script_bytes(
            x as int,
            y as int,
            destination_x as int,
            destination_y as int,
        ),
        r is Err ==> r == Err::<Vec<u8>, ActionError>(ActionError::InvalidInput),
{
    validate_coordinates(x, y, width, height)?;
    validate_coordinates(destination_x, destination_y, width, height)?;
    Ok(drag_script(x, y, destination_x, destination_y))
}

/// A URL with an explicit scheme passes through; anything else gets the
/// secure scheme prefixed.
pub fn normalize_url(url: &str) -> (r: String)
    ensures
        has_prefix(url@, "http://"@) || has_prefix(url@, "https://"@) ==> r@ == url@,
        !(has_prefix(url@, "http://"@) || has_prefix(url@, "https://"@)) ==> r@ == "https://"@
            + url@,
{
    if str_has_prefix(url, "http://") || str_has_prefix(url, "https://") {
        url.to_owned()
    } else {
        let prefix: String = "https://".to_owned();
        prefix.concat(url)
    }
}

/// Dispatch plan for a key combination, ready for a protocol client.
pub enum KeyDispatch {
    /// Send one mapped key code through the native key primitive.
    SendCode { code: String },
    /// Evaluate the synthesized key-event script.
    EvalScript { script: Vec<u8> },
    /// Only modifiers were given; capture the observation unchanged.
    Nothing,
    /// Dispatch each named key natively, in order.
    NativeKeys { keys: Vec<String> },
}

/// Plan a key combination into a dispatch for the protocol client. The
/// combination is rejected exactly when it is empty or holds a key outside
/// the allow-list.
pub fn plan_key_dispatch(keys: &Vec<String>, protocol: ProtocolKind) -> (r: Result<
    KeyDispatch,
    ActionError,
>)
    ensures
        (r is Err) <==> (keys@.len() == 0 || !crate::keys::all_keys_allowed(keys@)),
        r is Err ==> r == Err::<KeyDispatch, ActionError>(ActionError::InvalidInput),
        r is Ok && protocol is EventDriven ==> (r.unwrap() matches KeyDispatch::NativeKeys {
            keys: ks,
        } && ks@.len() == keys@.len() && (forall|i: int|
            0 <= i < ks@.len() ==> ks@[i]@ == keys@[i]@)),
        r is Ok && protocol is Polling && keys@.len() == 1 ==> (
        r.unwrap() matches KeyDispatch::SendCode { code } && code@ == crate::keys::key_code(
            keys@[0]@,
        )),
        r is Ok && protocol is Polling && keys@.len() > 1 && (exists|i: int|
            0 <= i < keys@.len() && !crate::keys::is_modifier_name(keys@[i]@)) ==> (
        r.unwrap() matches KeyDispatch::EvalScript { script } && (exists|idx: int|
            crate::keys::first_main_is(keys@, idx) && script@ == key_event_script_bytes(
                vstd::utf8::encode_utf8(keys@[idx]@),
                crate::keys::combo_has_ctrl(keys@),
                crate::keys::combo_has_shift(keys@),
                crate::keys::combo_has_alt(keys@),
                crate::keys::combo_has_meta(keys@),
            ))),
        r is Ok && protocol is Polling && keys@.len() > 1 && (forall|i: int|
            0 <= i < keys@.len() ==> crate::keys::is_modifier_name(keys@[i]@)) ==> r.unwrap()
            is Nothing,
{
    match plan_key_combination(keys, protocol)? {
        KeyPlan::SingleKey { code } => Ok(KeyDispatch::SendCode { code }),
        KeyPlan::ModifierScript { ctrl, shift, alt, meta, main_key } => {
            let script = key_event_script(main_key.as_str(), ctrl, shift, alt, meta);
            Ok(KeyDispatch::EvalScript { script })
        },
        KeyPlan::ModifiersOnly => Ok(KeyDispatch::Nothing),
        KeyPlan::NativeSequence { keys } => Ok(KeyDispatch::NativeKeys { keys }),
    }
}

/// Index of the history entry reached by going back, if any.
pub fn history_back_index(current_index: u64, entry_count: u64) -> (r: Option<u64>)
    requires
        current_index < entry_count,
    ensures
        current_index > 0 ==> r == Some((current_index - 1) as u64),
        current_index == 0 ==> r is None,
{
    if current_index > 0 {
        Some(current_index - 1)
    } else {
        None
    }
}

/// Index of the history entry reached by going forward, if any.
pub fn history_forward_index(current_index: u64, entry_count: u64) -> (r: Option<u64>)
    requires
        current_index < entry_count,
    ensures
        current_index + 1 < entry_count ==> r == Some((current_index + 1) as u64),
        current_index + 1 >= entry_count ==> r is None,
{
    if current_index + 1 < entry_count {
        Some(current_index + 1)
    } else {
        None
    }
}

/// Tab operations are defined only for the polling protocol; under the
/// event-driven protocol they fail fast rather than attempt a partial
/// emulation.
pub fn check_tab_ops_supported(protocol: ProtocolKind) -> (r: Result<(), ActionError>)
    ensures
        protocol is Polling <==> r is Ok,
        r is Err ==> r == Err::<(), ActionError>(ActionError::UnsupportedOperation),
{
    match protocol {
        ProtocolKind::Polling => Ok(()),
        ProtocolKind::EventDriven => Err(ActionError::UnsupportedOperation),
    }
}

/// One step of the page-readiness poll: a ready page proceeds, a pending
/// page waits, and reaching the ceiling proceeds best-effort — a slow page
/// is not an error.
#[derive(Clone, Copy, Debug, PartialEq, Eq, Structural)]
pub enum ReadyPoll {
    Proceed,
    Wait,
    ProceedBestEffort,
}

/// Ceiling of the page-readiness poll in milliseconds.
pub const PAGE_READY_CEILING_MS: u64 = 10000;

/// Interval between page-readiness checks in milliseconds.
pub const PAGE_READY_INTERVAL_MS: u64 = 100;

/// Decide one page-readiness poll step.
pub fn page_ready_step(ready: bool, elapsed_ms: u64) -> (r: ReadyPoll)
    ensures
        ready ==> r is Proceed,
        !ready && elapsed_ms < PAGE_READY_CEILING_MS ==> r is Wait,
        !ready && elapsed_ms >= PAGE_READY_CEILING_MS ==> r is ProceedBestEffort,
{
    if ready {
        ReadyPoll::Proceed
    } else if elapsed_ms < PAGE_READY_CEILING_MS {
        ReadyPoll::Wait
    } else {
        ReadyPoll::ProceedBestEffort
    }
}

/// Outcome of one screenshot attempt in the bounded retry.
#[derive(Clone, Copy, Debug, PartialEq, Eq, Structural)]
pub enum ScreenshotRetry {
    Done,
    RetryAfterMs { delay_ms: u64 },
    Fail,
}

/// Number of screenshot attempts before failure is surfaced.
pub const SCREENSHOT_ATTEMPTS: u64 = 3;

/// Initial backoff before a screenshot retry in milliseconds.
pub const SCREENSHOT_BACKOFF_MS: u64 = 200;

/// Decide what follows one screenshot attempt: success is done, a transient
/// failure is retried up to three attempts with doubling backoff starting
/// at 200ms, and the last failure is surfaced.
pub fn screenshot_retry_step(attempt: u64, succeeded: bool) -> (r: ScreenshotRetry)
    requires
        attempt < SCREENSHOT_ATTEMPTS,
    ensures
        succeeded ==> r is Done,
        !succeeded && attempt + 1 < SCREENSHOT_ATTEMPTS ==> r == (ScreenshotRetry::RetryAfterMs {
            delay_ms: (SCREENSHOT_BACKOFF_MS * (if attempt == 0 {
                1u64
            } else {
                2u64
            })) as u64,
        }),
        !succeeded && attempt + 1 >= SCREENSHOT_ATTEMPTS ==> r is Fail,
{
    if succeeded {
        ScreenshotRetry::Done
    } else if attempt + 1 < SCREENSHOT_ATTEMPTS {
        let factor: u64 = if attempt == 0 {
            1
        } else {
            2
        };
        ScreenshotRetry::RetryAfterMs { delay_ms: SCREENSHOT_BACKOFF_MS * factor }
    } else {
        ScreenshotRetry::Fail
    }
}

} // verus!
