use mcp_computer_use::actions::{
    check_tab_ops_supported, history_back_index, history_forward_index, normalize_url,
    page_ready_step, parse_direction, plan_click, plan_drag_and_drop, plan_hover,
    plan_key_dispatch, plan_scroll_at, plan_type_text, scroll_deltas, scroll_document_script,
    screenshot_retry_step, validate_coordinates, KeyDispatch, ReadyPoll, ScreenshotRetry,
    ScrollDirection,
};
use mcp_computer_use::config::ProtocolKind;
use mcp_computer_use::errors::ActionError;
use mcp_computer_use::obs::{make_observation, url_or_blank};
use mcp_computer_use::tools::{disabled_tool_message, response_json};

const W: u32 = 1280;
const H: u32 = 720;

#[test]
fn negative_coordinates_are_invalid_for_every_action() {
    assert_eq!(validate_coordinates(-1, 10, W, H), Err(ActionError::InvalidInput));
    assert_eq!(validate_coordinates(10, -1, W, H), Err(ActionError::InvalidInput));
    assert!(matches!(plan_click(-5, 0, W, H), Err(ActionError::InvalidInput)));
    assert!(matches!(plan_hover(0, -5, W, H), Err(ActionError::InvalidInput)));
    assert!(matches!(
        plan_type_text(-1, 0, "hi", false, true, W, H),
        Err(ActionError::InvalidInput)
    ));
    assert!(matches!(
        plan_scroll_at(-1, 0, "down", 800, W, H),
        Err(ActionError::InvalidInput)
    ));
    assert!(matches!(
        plan_drag_and_drop(5, 5, -1, 5, W, H),
        Err(ActionError::InvalidInput)
    ));
}

#[test]
fn coordinates_beyond_twice_the_viewport_are_invalid() {
    assert_eq!(validate_coordinates(2 * W as i64 + 1, 0, W, H), Err(ActionError::InvalidInput));
    assert_eq!(validate_coordinates(0, 2 * H as i64 + 1, W, H), Err(ActionError::InvalidInput));
    // The boundary itself is accepted.
    assert_eq!(validate_coordinates(2 * W as i64, 2 * H as i64, W, H), Ok(()));
    assert!(matches!(
        plan_click(2 * W as i64 + 1, 0, W, H),
        Err(ActionError::InvalidInput)
    ));
}

#[test]
fn click_script_embeds_the_coordinates() {
    let script = plan_click(10, 20, W, H).unwrap();
    let text = String::from_utf8(script).unwrap();
    assert_eq!(
        text,
        "var element = document.elementFromPoint(10, 20); if (element) { element.click(); } \
         else { var event = new MouseEvent('click', { view: window, bubbles: true, \
         cancelable: true, clientX: 10, clientY: 20 }); document.dispatchEvent(event); }"
    );
}

#[test]
fn typing_escapes_quotes_backslashes_and_newlines() {
    let plan = plan_type_text(1, 2, "a\"b\\c\nd", true, false, W, H).unwrap();
    let script = String::from_utf8(plan.insert).unwrap();
    assert!(script.contains("var text = \"a\\\"b\\\\c\\nd\";"));
    assert!(plan.press_enter);
    assert!(!plan.clear_before_typing);
    let focus = String::from_utf8(plan.focus).unwrap();
    assert!(focus.contains("element.click(); element.focus();"));
}

#[test]
fn scroll_direction_parsing_is_case_insensitive() {
    assert_eq!(parse_direction("UP"), Some(ScrollDirection::Up));
    assert_eq!(parse_direction("Down"), Some(ScrollDirection::Down));
    assert_eq!(parse_direction("left"), Some(ScrollDirection::Left));
    assert_eq!(parse_direction("RIGHT"), Some(ScrollDirection::Right));
    assert_eq!(parse_direction("sideways"), None);
}

#[test]
fn scroll_document_script_per_direction() {
    assert_eq!(
        scroll_document_script(ScrollDirection::Down),
        "window.scrollBy(0, window.innerHeight * 0.8);"
    );
    assert_eq!(
        scroll_document_script(ScrollDirection::Left),
        "window.scrollBy(-window.innerWidth * 0.5, 0);"
    );
}

#[test]
fn scroll_deltas_follow_the_direction() {
    assert_eq!(scroll_deltas(ScrollDirection::Up, 800), (0, -800));
    assert_eq!(scroll_deltas(ScrollDirection::Down, 800), (0, 800));
    assert_eq!(scroll_deltas(ScrollDirection::Left, 300), (-300, 0));
    assert_eq!(scroll_deltas(ScrollDirection::Right, 300), (300, 0));
}

#[test]
fn scroll_at_with_malformed_direction_is_invalid() {
    assert!(matches!(
        plan_scroll_at(5, 5, "diagonal", 800, W, H),
        Err(ActionError::InvalidInput)
    ));
    let script = plan_scroll_at(5, 6, "down", 800, W, H).unwrap();
    let text = String::from_utf8(script).unwrap();
    assert!(text.contains("element.scrollBy(0, 800);"));
}

#[test]
fn drag_script_runs_from_start_to_destination() {
    let script = plan_drag_and_drop(1, 2, 3, 4, W, H).unwrap();
    let text = String::from_utf8(script).unwrap();
    assert!(text.ends_with("simulateDragDrop(1, 2, 3, 4);"));
}

#[test]
fn navigate_prefixes_missing_scheme() {
    assert_eq!(normalize_url("example.com"), "https://example.com");
    assert_eq!(normalize_url("http://example.com"), "http://example.com");
    assert_eq!(normalize_url("https://example.com"), "https://example.com");
}

#[test]
fn single_key_uses_the_mapped_code() {
    let keys = vec!["Enter".to_string()];
    match plan_key_dispatch(&keys, ProtocolKind::Polling).unwrap() {
        KeyDispatch::SendCode { code } => assert_eq!(code, "\u{E007}"),
        _ => panic!("expected a single mapped key code"),
    }
}

#[test]
fn multi_key_combination_becomes_one_synthesized_event() {
    let keys = vec!["Control".to_string(), "C".to_string()];
    match plan_key_dispatch(&keys, ProtocolKind::Polling).unwrap() {
        KeyDispatch::EvalScript { script } => {
            let text = String::from_utf8(script).unwrap();
            assert!(text.contains("key: \"c\""));
            assert!(text.contains("ctrlKey: true"));
            assert!(text.contains("shiftKey: false"));
            assert!(text.contains("altKey: false"));
            assert!(text.contains("metaKey: false"));
        }
        _ => panic!("expected a synthesized key event"),
    }
}

#[test]
fn event_protocol_dispatches_keys_natively() {
    let keys = vec!["Control".to_string(), "c".to_string()];
    match plan_key_dispatch(&keys, ProtocolKind::EventDriven).unwrap() {
        KeyDispatch::NativeKeys { keys: ks } => {
            assert_eq!(ks, vec!["Control".to_string(), "c".to_string()]);
        }
        _ => panic!("expected native key dispatch"),
    }
}

#[test]
fn empty_or_disallowed_combinations_are_invalid() {
    let empty: Vec<String> = Vec::new();
    assert!(matches!(
        plan_key_dispatch(&empty, ProtocolKind::Polling),
        Err(ActionError::InvalidInput)
    ));
    let bad = vec!["Control".to_string(), "\"".to_string()];
    assert!(matches!(
        plan_key_dispatch(&bad, ProtocolKind::Polling),
        Err(ActionError::InvalidInput)
    ));
}

#[test]
fn modifier_only_combination_dispatches_nothing() {
    let keys = vec!["Control".to_string(), "Shift".to_string()];
    assert!(matches!(
        plan_key_dispatch(&keys, ProtocolKind::Polling).unwrap(),
        KeyDispatch::Nothing
    ));
}

#[test]
fn history_indices() {
    assert_eq!(history_back_index(2, 5), Some(1));
    assert_eq!(history_back_index(0, 5), None);
    assert_eq!(history_forward_index(2, 5), Some(3));
    assert_eq!(history_forward_index(4, 5), None);
}

#[test]
fn tab_operations_fail_fast_on_the_event_protocol() {
    assert_eq!(check_tab_ops_supported(ProtocolKind::Polling), Ok(()));
    assert_eq!(
        check_tab_ops_supported(ProtocolKind::EventDriven),
        Err(ActionError::UnsupportedOperation)
    );
}

#[test]
fn page_readiness_timeout_is_not_an_error() {
    assert_eq!(page_ready_step(true, 0), ReadyPoll::Proceed);
    assert_eq!(page_ready_step(false, 500), ReadyPoll::Wait);
    assert_eq!(page_ready_step(false, 10000), ReadyPoll::ProceedBestEffort);
}

#[test]
fn screenshot_retry_doubles_its_backoff() {
    assert_eq!(screenshot_retry_step(0, true), ScreenshotRetry::Done);
    assert_eq!(
        screenshot_retry_step(0, false),
        ScreenshotRetry::RetryAfterMs { delay_ms: 200 }
    );
    assert_eq!(
        screenshot_retry_step(1, false),
        ScreenshotRetry::RetryAfterMs { delay_ms: 400 }
    );
    assert_eq!(screenshot_retry_step(2, false), ScreenshotRetry::Fail);
}

#[test]
fn observation_encodes_the_screenshot() {
    let png = b"hello".to_vec();
    let obs = make_observation(&png, "https://example.com".to_string());
    assert_eq!(obs.screenshot, "aGVsbG8=");
    assert_eq!(obs.url, "https://example.com");
    assert!(!obs.screenshot.is_empty());
}

#[test]
fn missing_url_reads_as_blank() {
    assert_eq!(url_or_blank(None), "about:blank");
    assert_eq!(url_or_blank(Some("https://a".to_string())), "https://a");
}

#[test]
fn response_envelope_has_one_shape_for_success_and_failure() {
    let ok = response_json("https://example.com", true, Some("done"));
    assert_eq!(
        String::from_utf8(ok).unwrap(),
        "{\"url\":\"https://example.com\",\"success\":true,\"message\":\"done\"}"
    );
    let err = response_json("", false, Some("browser not opened"));
    assert_eq!(
        String::from_utf8(err).unwrap(),
        "{\"url\":\"\",\"success\":false,\"message\":\"browser not opened\"}"
    );
    let bare = response_json("https://a\"b", true, None);
    assert_eq!(
        String::from_utf8(bare).unwrap(),
        "{\"url\":\"https://a\\\"b\",\"success\":true}"
    );
}

#[test]
fn disabled_tool_message_names_the_tool() {
    assert_eq!(
        disabled_tool_message("click_at"),
        "Tool 'click_at' is disabled via MCP_DISABLED_TOOLS configuration"
    );
}

#[test]
fn action_errors_have_messages() {
    assert_eq!(ActionError::InvalidInput.message(), "invalid input");
    assert_eq!(ActionError::SessionNotOpen.message(), "browser not opened");
    assert_eq!(ActionError::ProtocolFailure.message(), "protocol call failed");
    assert_eq!(
        ActionError::UnsupportedOperation.message(),
        "operation not supported by this protocol"
    );
}
