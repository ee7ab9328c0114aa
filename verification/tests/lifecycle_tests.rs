use mcp_computer_use::errors::ActionError;
use mcp_computer_use::keys::{get_key_mapping, validate_key};
use mcp_computer_use::session::{check_interval_ms, HandleState, SessionState};
use mcp_computer_use::text::{escape_js, fmt_i64, fmt_u64};

#[test]
fn open_is_idempotent() {
    let mut s = SessionState::new(1000);
    assert!(matches!(s.handle, HandleState::Closed));
    let was_open_first = s.apply_open();
    assert!(!was_open_first);
    let after_first = s;
    let was_open_second = s.apply_open();
    assert!(was_open_second);
    // The second open returns the same session state and creates no second
    // handle.
    assert_eq!(s, after_first);
    assert!(matches!(s.handle, HandleState::Open));
}

#[test]
fn close_on_closed_session_is_a_no_op() {
    let mut s = SessionState::new(1000);
    s.apply_close();
    assert!(matches!(s.handle, HandleState::Closed));
    s.apply_open();
    s.apply_close();
    s.apply_close();
    assert!(matches!(s.handle, HandleState::Closed));
}

#[test]
fn actions_require_an_open_session() {
    let s = SessionState::new(1000);
    assert_eq!(s.require_open(), Err(ActionError::SessionNotOpen));
    let mut s2 = s;
    s2.apply_open();
    assert_eq!(s2.require_open(), Ok(()));
}

#[test]
fn check_interval_is_a_quarter_clamped_to_one_second() {
    assert_eq!(check_interval_ms(1000), 1000);
    assert_eq!(check_interval_ms(0), 1000);
    assert_eq!(check_interval_ms(8000), 2000);
    assert_eq!(check_interval_ms(400000), 100000);
}

#[test]
fn idle_monitor_closes_exactly_once() {
    let mut s = SessionState::new(1000);
    s.apply_open();
    assert!(s.start_monitor());
    s.finish_action(5000);
    // Idle for one full timeout after the last activity.
    let closed = s.monitor_tick(6000);
    assert!(closed);
    assert!(matches!(s.handle, HandleState::Closed));
    assert!(!s.monitor_running);
    // The monitor has exited; even a forced further tick closes nothing.
    s.monitor_running = true;
    let closed_again = s.monitor_tick(99000);
    assert!(!closed_again);
}

#[test]
fn idle_monitor_skips_while_an_action_runs() {
    let mut s = SessionState::new(1000);
    s.apply_open();
    assert!(s.start_monitor());
    s.begin_action(5000);
    // Far past the timeout, but the in-progress flag wins.
    let closed = s.monitor_tick(60000);
    assert!(!closed);
    assert!(matches!(s.handle, HandleState::Open));
    assert!(s.monitor_running);
}

#[test]
fn idle_monitor_waits_for_the_timeout() {
    let mut s = SessionState::new(1000);
    s.apply_open();
    assert!(s.start_monitor());
    s.finish_action(5000);
    let closed = s.monitor_tick(5999);
    assert!(!closed);
    assert!(matches!(s.handle, HandleState::Open));
}

#[test]
fn monitor_starts_at_most_once_and_never_with_zero_timeout() {
    let mut disabled = SessionState::new(0);
    disabled.apply_open();
    assert!(!disabled.start_monitor());
    assert!(!disabled.monitor_running);

    let mut s = SessionState::new(1000);
    s.apply_open();
    assert!(s.start_monitor());
    assert!(!s.start_monitor());
    assert!(s.monitor_running);
}

#[test]
fn shutdown_is_always_safe() {
    let mut s = SessionState::new(1000);
    s.apply_open();
    s.start_monitor();
    s.shutdown();
    assert!(matches!(s.handle, HandleState::Closed));
    assert!(!s.monitor_running);
    s.shutdown();
    assert!(matches!(s.handle, HandleState::Closed));
}

#[test]
fn activity_clock_counts_from_the_end_of_an_action() {
    let mut s = SessionState::new(1000);
    s.apply_open();
    s.begin_action(1000);
    assert!(s.in_progress);
    assert_eq!(s.last_activity_ms, 1000);
    s.finish_action(4000);
    assert!(!s.in_progress);
    assert_eq!(s.last_activity_ms, 4000);
}

#[test]
fn key_allow_list_accepts_named_keys_and_printable_characters() {
    assert!(validate_key("Enter"));
    assert!(validate_key("ArrowLeft"));
    assert!(validate_key("a"));
    assert!(validate_key("1"));
    assert!(validate_key("@"));
}

#[test]
fn key_allow_list_rejects_quotes_backslash_and_unknown_names() {
    assert!(!validate_key("\""));
    assert!(!validate_key("'"));
    assert!(!validate_key("\\"));
    assert!(!validate_key("notakey"));
    assert!(!validate_key(""));
}

#[test]
fn key_mapping_follows_the_driver_table() {
    assert_eq!(get_key_mapping("Enter"), "\u{E007}");
    assert_eq!(get_key_mapping("return"), "\u{E007}");
    assert_eq!(get_key_mapping("CTRL"), "\u{E009}");
    assert_eq!(get_key_mapping("ArrowLeft"), "\u{E012}");
    assert_eq!(get_key_mapping("f12"), "\u{E03C}");
    assert_eq!(get_key_mapping("a"), "a");
}

#[test]
fn escaping_rewrites_every_dangerous_byte() {
    assert_eq!(escape_js("plain"), b"plain".to_vec());
    assert_eq!(escape_js("a\"b"), b"a\\\"b".to_vec());
    assert_eq!(escape_js("a\\b"), b"a\\\\b".to_vec());
    assert_eq!(escape_js("a\nb\tc\rd"), b"a\\nb\\tc\\rd".to_vec());
    assert_eq!(escape_js("\u{1}"), b"\\u0001".to_vec());
}

#[test]
fn decimal_rendering_is_exact() {
    assert_eq!(fmt_u64(0), b"0".to_vec());
    assert_eq!(fmt_u64(1280), b"1280".to_vec());
    assert_eq!(fmt_i64(-42), b"-42".to_vec());
    assert_eq!(fmt_i64(9007), b"9007".to_vec());
    assert_eq!(fmt_i64(i64::MIN), b"-9223372036854775808".to_vec());
}
