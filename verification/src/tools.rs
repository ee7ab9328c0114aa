//! The tool interface: parameter and response types of the primitive
//! actions, and the uniform response envelope every call returns.

use vstd::prelude::*;

verus! {

use vstd::string::StringSliceAdditionalSpecFns;

use crate::obs::TabInfo;
use crate::text::append_str_bytes;
use crate::text::escape_bytes;
use crate::text::escape_js;
use crate::script::append_bool;
use crate::script::bool_bytes;

/// Parameters of the click action.
#[derive(Debug)]
pub struct ClickAtParams {
    /// X coordinate on the screen.
    pub x: i64,
    /// Y coordinate on the screen.
    pub y: i64,
}

/// Parameters of the hover action.
#[derive(Debug)]
pub struct HoverAtParams {
    /// X coordinate on the screen.
    pub x: i64,
    /// Y coordinate on the screen.
    pub y: i64,
}

/// Parameters of the typing action.
#[derive(Debug)]
pub struct TypeTextAtParams {
    /// X coordinate on the screen.
    pub x: i64,
    /// Y coordinate on the screen.
    pub y: i64,
    /// Text to type.
    pub text: String,
    /// Whether to press the enter key after typing.
    pub press_enter: bool,
    /// Whether to clear existing content before typing.
    pub clear_before_typing: bool,
}

/// Parameters of the whole-document scroll action.
#[derive(Debug)]
pub struct ScrollDocumentParams {
    /// Direction to scroll: up, down, left or right.
    pub direction: String,
}

/// Parameters of the positional scroll action.
#[derive(Debug)]
pub struct ScrollAtParams {
    /// X coordinate on the screen.
    pub x: i64,
    /// Y coordinate on the screen.
    pub y: i64,
    /// Direction to scroll: up, down, left or right.
    pub direction: String,
    /// Magnitude of the scroll in pixels.
    pub magnitude: i64,
}

/// Parameters of the navigation action.
#[derive(Debug)]
pub struct NavigateParams {
    /// URL to navigate to; prefixed with the secure scheme when no scheme
    /// is given.
    pub url: String,
}

/// Parameters of the key-combination action.
#[derive(Debug)]
pub struct KeyCombinationParams {
    /// Keys to press together.
    pub keys: Vec<String>,
}

/// Parameters of the drag-and-drop action.
#[derive(Debug)]
pub struct DragAndDropParams {
    /// Starting X coordinate.
    pub x: i64,
    /// Starting Y coordinate.
    pub y: i64,
    /// Destination X coordinate.
    pub destination_x: i64,
    /// Destination Y coordinate.
    pub destination_y: i64,
}

/// Parameters of the new-tab operation.
#[derive(Debug)]
pub struct NewTabParams {
    /// URL to open in the new tab, if any.
    pub url: Option<String>,
}

/// Parameters of the close-tab operation.
#[derive(Debug)]
pub struct CloseTabParams {
    /// Handle of the tab to close; the current tab when absent.
    pub handle: Option<String>,
}

/// Parameters of the switch-tab operation.
#[derive(Debug)]
pub struct SwitchTabParams {
    /// Handle of the tab to switch to.
    pub handle: Option<String>,
    /// Position of the tab to switch to.
    pub index: Option<usize>,
}

/// The uniform envelope of every action response.
#[derive(Debug)]
pub struct BrowserStateResponse {
    /// Current URL of the page.
    pub url: String,
    /// Whether the action succeeded.
    pub success: bool,
    /// Message describing the result, if any.
    pub message: Option<String>,
}

/// Response of the list-tabs operation.
#[derive(Debug)]
pub struct TabListResponse {
    /// All open tabs.
    pub tabs: Vec<TabInfo>,
    /// Whether the operation succeeded.
    pub success: bool,
    /// Message describing the result, if any.
    pub message: Option<String>,
}

/// Response of the new-tab operation.
#[derive(Debug)]
pub struct NewTabResponse {
    /// The newly created tab.
    pub tab: TabInfo,
    /// Whether the operation succeeded.
    pub success: bool,
    /// Message describing the result, if any.
    pub message: Option<String>,
}

/// Serialized form of the response envelope: a fixed object shape with the
/// URL and message escaped.
pub open spec fn response_json_bytes(url: Seq<u8>, success: bool, message: Option<Seq<u8>>) -> Seq<
    u8,
> {
    "{\"url\":\"".spec_bytes() + escape_bytes(url) + "\",\"success\":".spec_bytes() + bool_bytes(
        success,
    ) + (match message {
        Some(m) => ",\"message\":\"".spec_bytes() + escape_bytes(m) + "\"".spec_bytes(),
        None => Seq::<u8>::empty(),
    }) + "}".spec_bytes()
}

/// Serialize a response envelope; the same shape is used for success and
/// failure so that callers need no protocol-specific branching.
pub fn response_json(url: &str, success: bool, message: Option<&str>) -> (r: Vec<u8>)
    ensures
        r@ == response_json_bytes(
            url.spec_bytes(),
            success,
            match message {
                Some(m) => Some(m.spec_bytes()),
                None => None,
            },
        ),
{
    let mut buf: Vec<u8> = Vec::new();
    append_str_bytes(&mut buf, "{\"url\":\"");
    let mut escaped_url = escape_js(url);
    buf.append(&mut escaped_url);
    append_str_bytes(&mut buf, "\",\"success\":");
    append_bool(&mut buf, success);
    match message {
        Some(m) => {
            append_str_bytes(&mut buf, ",\"message\":\"");
            let mut escaped_msg = escape_js(m);
            buf.append(&mut escaped_msg);
            append_str_bytes(&mut buf, "\"");
        },
        None => {},
    }
    append_str_bytes(&mut buf, "}");
    proof {
        assert(buf@ =~= response_json_bytes(
            url.spec_bytes(),
            success,
            match message {
                Some(m) => Some(m.spec_bytes()),
                None => None::<Seq<u8>>,
            },
        ));
    }
    buf
}

/// The message of the error returned for a disabled tool.
pub fn disabled_tool_message(tool_name: &str) -> (r: String)
    ensures
        r@ == "Tool '"@ + tool_name@ + "' is disabled via MCP_DISABLED_TOOLS configuration"@,
{
    let head: String = "Tool '".to_owned();
    let with_name = head.concat(tool_name);
    with_name.concat("' is disabled via MCP_DISABLED_TOOLS configuration")
}

} // verus!
