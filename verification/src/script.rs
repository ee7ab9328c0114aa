//! Page-context scripts for the primitive actions.
//!
//! Every script is assembled from fixed fragments, decimal-rendered
//! coordinates and escaped text; the contracts pin the exact byte sequence,
//! so no user-supplied text can ever break out of its quoted position.

use vstd::prelude::*;

verus! {

use vstd::string::StringSliceAdditionalSpecFns;

use crate::text::append_i64;
use crate::text::append_str_bytes;
use crate::text::dec_int;
use crate::text::escape_bytes;
use crate::text::escape_bytes_vec;
use crate::text::escape_js;
use crate::text::lower_bytes;
use crate::text::lower_bytes_vec;

/// Bytes of the click script: click the element under the coordinate, or
/// dispatch a synthetic click on the document if none is hit.
pub open spec fn click_script_bytes(x: int, y: int) -> Seq<u8> {
    "var element = document.elementFromPoint(".spec_bytes() + dec_int(x) + ", ".spec_bytes()
        + dec_int(y)
        + "); if (element) { element.click(); } else { var event = new MouseEvent('click', { view: window, bubbles: true, cancelable: true, clientX: ".spec_bytes()
        + dec_int(x) + ", clientY: ".spec_bytes() + dec_int(y)
        + " }); document.dispatchEvent(event); }".spec_bytes()
}

/// Build the click script for a coordinate.
pub fn click_script(x: i64, y: i64) -> (r: Vec<u8>)
    ensures
        r@ == click_script_bytes(x as int, y as int),
{
    let mut buf: Vec<u8> = Vec::new();
    append_str_bytes(&mut buf, "var element = document.elementFromPoint(");
    append_i64(&mut buf, x);
    append_str_bytes(&mut buf, ", ");
    append_i64(&mut buf, y);
    append_str_bytes(
        &mut buf,
        "); if (element) { element.click(); } else { var event = new MouseEvent('click', { view: window, bubbles: true, cancelable: true, clientX: ",
    );
    append_i64(&mut buf, x);
    append_str_bytes(&mut buf, ", clientY: ");
    append_i64(&mut buf, y);
    append_str_bytes(&mut buf, " }); document.dispatchEvent(event); }");
    proof {
        assert(buf@ =~= click_script_bytes(x as int, y as int));
    }
    buf
}

/// Bytes of the hover script: dispatch a synthetic mouseover on the element
/// under the coordinate, or on the document if none is hit.
pub open spec fn hover_script_bytes(x: int, y: int) -> Seq<u8> {
    "var element = document.elementFromPoint(".spec_bytes() + dec_int(x) + ", ".spec_bytes()
        + dec_int(y)
        + "); var event = new MouseEvent('mouseover', { view: window, bubbles: true, cancelable: true, clientX: ".spec_bytes()
        + dec_int(x) + ", clientY: ".spec_bytes() + dec_int(y)
        + " }); if (element) { element.dispatchEvent(event); } else { document.dispatchEvent(event); }".spec_bytes()
}

/// Build the hover script for a coordinate.
pub fn hover_script(x: i64, y: i64) -> (r: Vec<u8>)
    ensures
        r@ == hover_script_bytes(x as int, y as int),
{
    let mut buf: Vec<u8> = Vec::new();
    append_str_bytes(&mut buf, "var element = document.elementFromPoint(");
    append_i64(&mut buf, x);
    append_str_bytes(&mut buf, ", ");
    append_i64(&mut buf, y);
    append_str_bytes(
        &mut buf,
        "); var event = new MouseEvent('mouseover', { view: window, bubbles: true, cancelable: true, clientX: ",
    );
    append_i64(&mut buf, x);
    append_str_bytes(&mut buf, ", clientY: ");
    append_i64(&mut buf, y);
    append_str_bytes(
        &mut buf,
        " }); if (element) { element.dispatchEvent(event); } else { document.dispatchEvent(event); }",
    );
    proof {
        assert(buf@ =~= hover_script_bytes(x as int, y as int));
    }
    buf
}

/// Bytes of the focus script: click and focus the element under the
/// coordinate before typing.
pub open spec fn focus_script_bytes(x: int, y: int) -> Seq<u8> {
    "var element = document.elementFromPoint(".spec_bytes() + dec_int(x) + ", ".spec_bytes()
        + dec_int(y) + "); if (element) { element.click(); element.focus(); }".spec_bytes()
}

/// Build the focus script for a coordinate.
pub fn focus_script(x: i64, y: i64) -> (r: Vec<u8>)
    ensures
        r@ == focus_script_bytes(x as int, y as int),
{
    let mut buf: Vec<u8> = Vec::new();
    append_str_bytes(&mut buf, "var element = document.elementFromPoint(");
    append_i64(&mut buf, x);
    append_str_bytes(&mut buf, ", ");
    append_i64(&mut buf, y);
    append_str_bytes(&mut buf, "); if (element) { element.click(); element.focus(); }");
    proof {
        assert(buf@ =~= focus_script_bytes(x as int, y as int));
    }
    buf
}

/// Bytes of the positional scroll script: scroll the element under the
/// coordinate by the given deltas, or the window if none is hit.
pub open spec fn scroll_at_script_bytes(x: int, y: int, dx: int, dy: int) -> Seq<u8> {
    "var element = document.elementFromPoint(".spec_bytes() + dec_int(x) + ", ".spec_bytes()
        + dec_int(y) + "); if (element) { element.scrollBy(".spec_bytes() + dec_int(dx)
        + ", ".spec_bytes() + dec_int(dy) + "); } else { window.scrollBy(".spec_bytes() + dec_int(
        dx,
    ) + ", ".spec_bytes() + dec_int(dy) + "); }".spec_bytes()
}

/// Build the positional scroll script.
pub fn scroll_at_script(x: i64, y: i64, dx: i64, dy: i64) -> (r: Vec<u8>)
    ensures
        r@ == scroll_at_script_bytes(x as int, y as int, dx as int, dy as int),
{
    let mut buf: Vec<u8> = Vec::new();
    append_str_bytes(&mut buf, "var element = document.elementFromPoint(");
    append_i64(&mut buf, x);
    append_str_bytes(&mut buf, ", ");
    append_i64(&mut buf, y);
    append_str_bytes(&mut buf, "); if (element) { element.scrollBy(");
    append_i64(&mut buf, dx);
    append_str_bytes(&mut buf, ", ");
    append_i64(&mut buf, dy);
    append_str_bytes(&mut buf, "); } else { window.scrollBy(");
    append_i64(&mut buf, dx);
    append_str_bytes(&mut buf, ", ");
    append_i64(&mut buf, dy);
    append_str_bytes(&mut buf, "); }");
    proof {
        assert(buf@ =~= scroll_at_script_bytes(x as int, y as int, dx as int, dy as int));
    }
    buf
}

/// Bytes of the drag-and-drop script: synthetic drag events from the start
/// element to the element under the destination.
pub open spec fn drag_script_bytes(x: int, y: int, ex: int, ey: int) -> Seq<u8> {
    "function simulateDragDrop(startX, startY, endX, endY) { var startElement = document.elementFromPoint(startX, startY); if (!startElement) return; var dataTransfer = new DataTransfer(); var dragStartEvent = new DragEvent('dragstart', { bubbles: true, cancelable: true, dataTransfer: dataTransfer, clientX: startX, clientY: startY }); startElement.dispatchEvent(dragStartEvent); var endElement = document.elementFromPoint(endX, endY); if (endElement) { var dropEvent = new DragEvent('drop', { bubbles: true, cancelable: true, dataTransfer: dataTransfer, clientX: endX, clientY: endY }); endElement.dispatchEvent(dropEvent); } var dragEndEvent = new DragEvent('dragend', { bubbles: true, cancelable: true, dataTransfer: dataTransfer, clientX: endX, clientY: endY }); startElement.dispatchEvent(dragEndEvent); } simulateDragDrop(".spec_bytes()
        + dec_int(x) + ", ".spec_bytes() + dec_int(y) + ", ".spec_bytes() + dec_int(ex)
        + ", ".spec_bytes() + dec_int(ey) + ");".spec_bytes()
}

/// Build the drag-and-drop script.
pub fn drag_script(x: i64, y: i64, ex: i64, ey: i64) -> (r: Vec<u8>)
    ensures
        r@ == drag_script_bytes(x as int, y as int, ex as int, ey as int),
{
    let mut buf: Vec<u8> = Vec::new();
    append_str_bytes(
        &mut buf,
        "function simulateDragDrop(startX, startY, endX, endY) { var startElement = document.elementFromPoint(startX, startY); if (!startElement) return; var dataTransfer = new DataTransfer(); var dragStartEvent = new DragEvent('dragstart', { bubbles: true, cancelable: true, dataTransfer: dataTransfer, clientX: startX, clientY: startY }); startElement.dispatchEvent(dragStartEvent); var endElement = document.elementFromPoint(endX, endY); if (endElement) { var dropEvent = new DragEvent('drop', { bubbles: true, cancelable: true, dataTransfer: dataTransfer, clientX: endX, clientY: endY }); endElement.dispatchEvent(dropEvent); } var dragEndEvent = new DragEvent('dragend', { bubbles: true, cancelable: true, dataTransfer: dataTransfer, clientX: endX, clientY: endY }); startElement.dispatchEvent(dragEndEvent); } simulateDragDrop(",
    );
    append_i64(&mut buf, x);
    append_str_bytes(&mut buf, ", ");
    append_i64(&mut buf, y);
    append_str_bytes(&mut buf, ", ");
    append_i64(&mut buf, ex);
    append_str_bytes(&mut buf, ", ");
    append_i64(&mut buf, ey);
    append_str_bytes(&mut buf, ");");
    proof {
        assert(buf@ =~= drag_script_bytes(x as int, y as int, ex as int, ey as int));
    }
    buf
}

/// Bytes of the typing script: insert quoted, escaped text at the focused
/// element, using the value for inputs, the selection for content-editable
/// regions, and key events as a last resort.
pub open spec fn type_script_bytes(text: Seq<u8>) -> Seq<u8> {
    "(function() { var text = \"".spec_bytes() + escape_bytes(text)
        + "\"; var active = document.activeElement; if (active && (active.tagName === 'INPUT' || active.tagName === 'TEXTAREA')) { active.value = (active.value || '') + text; active.dispatchEvent(new Event('input', { bubbles: true })); } else if (active && active.isContentEditable) { var selection = window.getSelection(); if (selection.rangeCount > 0) { var range = selection.getRangeAt(0); range.deleteContents(); var textNode = document.createTextNode(text); range.insertNode(textNode); range.setStartAfter(textNode); range.setEndAfter(textNode); selection.removeAllRanges(); selection.addRange(range); } else { active.textContent += text; } } else { for (var i = 0; i < text.length; i++) { var event = new KeyboardEvent('keypress', { key: text[i], charCode: text.charCodeAt(i), bubbles: true }); active.dispatchEvent(event); } } })();".spec_bytes()
}

/// Build the typing script for user-supplied text.
pub fn type_script(text: &str) -> (r: Vec<u8>)
    ensures
        r@ == type_script_bytes(text.spec_bytes()),
{
    let mut buf: Vec<u8> = Vec::new();
    append_str_bytes(&mut buf, "(function() { var text = \"");
    let mut escaped = escape_js(text);
    buf.append(&mut escaped);
    append_str_bytes(
        &mut buf,
        "\"; var active = document.activeElement; if (active && (active.tagName === 'INPUT' || active.tagName === 'TEXTAREA')) { active.value = (active.value || '') + text; active.dispatchEvent(new Event('input', { bubbles: true })); } else if (active && active.isContentEditable) { var selection = window.getSelection(); if (selection.rangeCount > 0) { var range = selection.getRangeAt(0); range.deleteContents(); var textNode = document.createTextNode(text); range.insertNode(textNode); range.setStartAfter(textNode); range.setEndAfter(textNode); selection.removeAllRanges(); selection.addRange(range); } else { active.textContent += text; } } else { for (var i = 0; i < text.length; i++) { var event = new KeyboardEvent('keypress', { key: text[i], charCode: text.charCodeAt(i), bubbles: true }); active.dispatchEvent(event); } } })();",
    );
    proof {
        assert(buf@ =~= type_script_bytes(text.spec_bytes()));
    }
    buf
}

/// The clearing script: empty an input's value, or delete the selected
/// contents of a content-editable region.
pub fn clear_script() -> (r: &'static str)
    ensures
        r@
            == "var active = document.activeElement; if (active && (active.tagName === 'INPUT' || active.tagName === 'TEXTAREA')) { active.value = ''; active.dispatchEvent(new Event('input', { bubbles: true })); } else if (active && active.isContentEditable) { var selection = window.getSelection(); var range = document.createRange(); range.selectNodeContents(active); selection.removeAllRanges(); selection.addRange(range); selection.deleteFromDocument(); }"@,
{
    "var active = document.activeElement; if (active && (active.tagName === 'INPUT' || active.tagName === 'TEXTAREA')) { active.value = ''; active.dispatchEvent(new Event('input', { bubbles: true })); } else if (active && active.isContentEditable) { var selection = window.getSelection(); var range = document.createRange(); range.selectNodeContents(active); selection.removeAllRanges(); selection.addRange(range); selection.deleteFromDocument(); }"
}

/// Rendering of a boolean inside a script.
pub open spec fn bool_bytes(b: bool) -> Seq<u8> {
    if b {
        "true".spec_bytes()
    } else {
        "false".spec_bytes()
    }
}

/// Append `true` or `false` to `buf`.
pub fn append_bool(buf: &mut Vec<u8>, b: bool)
    ensures
        final(buf)@ == old(buf)@ + bool_bytes(b),
{
    if b {
        append_str_bytes(buf, "true");
    } else {
        append_str_bytes(buf, "false");
    }
}

/// Bytes of the synthesized key-event script: one keydown carrying the
/// modifier flags and the lower-cased, escaped main key.
pub open spec fn key_event_script_bytes(
    main_key: Seq<u8>,
    ctrl: bool,
    shift: bool,
    alt: bool,
    meta: bool,
) -> Seq<u8> {
    "var event = new KeyboardEvent('keydown', { key: \"".spec_bytes() + escape_bytes(
        lower_bytes(main_key),
    ) + "\", ctrlKey: ".spec_bytes() + bool_bytes(ctrl) + ", shiftKey: ".spec_bytes() + bool_bytes(
        shift,
    ) + ", altKey: ".spec_bytes() + bool_bytes(alt) + ", metaKey: ".spec_bytes() + bool_bytes(meta)
        + ", bubbles: true }); document.activeElement.dispatchEvent(event);".spec_bytes()
}

/// Build the synthesized key-event script for a multi-key combination.
pub fn key_event_script(main_key: &str, ctrl: bool, shift: bool, alt: bool, meta: bool) -> (r: Vec<
    u8,
>)
    ensures
        r@ == key_event_script_bytes(main_key.spec_bytes(), ctrl, shift, alt, meta),
{
    let mut buf: Vec<u8> = Vec::new();
    append_str_bytes(&mut buf, "var event = new KeyboardEvent('keydown', { key: \"");
    let key_bytes = main_key.as_bytes_vec();
    let lowered = lower_bytes_vec(&key_bytes);
    let mut escaped = escape_bytes_vec(&lowered);
    buf.append(&mut escaped);
    append_str_bytes(&mut buf, "\", ctrlKey: ");
    append_bool(&mut buf, ctrl);
    append_str_bytes(&mut buf, ", shiftKey: ");
    append_bool(&mut buf, shift);
    append_str_bytes(&mut buf, ", altKey: ");
    append_bool(&mut buf, alt);
    append_str_bytes(&mut buf, ", metaKey: ");
    append_bool(&mut buf, meta);
    append_str_bytes(&mut buf, ", bubbles: true }); document.activeElement.dispatchEvent(event);");
    proof {
        assert(buf@ =~= key_event_script_bytes(main_key.spec_bytes(), ctrl, shift, alt, meta));
    }
    buf
}

} // verus!
