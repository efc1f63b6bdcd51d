use rlicker::keys::{BTN_LEFT, BTN_RIGHT, EV_KEY, KEY_A, KEY_ESC};
use rlicker::state::{AppState, Field, KeyOutcome, MouseButton, Msg, Snapshot};

const QUIET: KeyOutcome = KeyOutcome { notify: false, pause_ms: 0 };
const NOTIFY: KeyOutcome = KeyOutcome { notify: true, pause_ms: 0 };

fn initial() -> Snapshot {
    Snapshot {
        running: false,
        grabbing: false,
        button_code: BTN_LEFT,
        interval_ms: 1000,
        hold_ms: 50,
        interval_jitter: 0,
        hold_jitter: 0,
        hotkey_code: 0,
        hold_mode: false,
        shutdown: false,
    }
}

fn with_hotkey(code: u16) -> AppState {
    let mut st = AppState::new();
    st.transition(Msg::StartGrab);
    assert_eq!(st.on_key_event(EV_KEY, code, 1), KeyOutcome { notify: true, pause_ms: 200 });
    st
}

#[test]
fn starts_stopped_with_defaults() {
    assert_eq!(AppState::new().snapshot(), initial());
}

#[test]
fn toggle_twice_restores() {
    let mut st = AppState::new();
    st.transition(Msg::Toggle);
    assert!(st.snapshot().running);
    st.transition(Msg::Toggle);
    assert_eq!(st.snapshot(), initial());
}

#[test]
fn start_grab_then_escape_keeps_hotkey() {
    let mut st = with_hotkey(KEY_A);
    st.transition(Msg::StartGrab);
    assert!(st.snapshot().grabbing);
    assert_eq!(st.on_key_event(EV_KEY, 40, 0), QUIET);
    assert_eq!(st.on_key_event(EV_KEY, 40, 2), QUIET);
    assert!(st.snapshot().grabbing);
    assert_eq!(st.on_key_event(EV_KEY, KEY_ESC, 1), NOTIFY);
    let s = st.snapshot();
    assert!(!s.grabbing);
    assert_eq!(s.hotkey_code, KEY_A);
}

#[test]
fn grab_sets_hotkey() {
    let s = with_hotkey(59).snapshot();
    assert_eq!(s.hotkey_code, 59);
    assert!(!s.grabbing);
    assert!(!s.running);
}

#[test]
fn hotkey_toggles_in_normal_mode() {
    let mut st = with_hotkey(KEY_A);
    assert_eq!(st.on_key_event(EV_KEY, KEY_A, 1), NOTIFY);
    assert!(st.snapshot().running);
    assert_eq!(st.on_key_event(EV_KEY, KEY_A, 0), QUIET);
    assert_eq!(st.on_key_event(EV_KEY, KEY_A, 2), QUIET);
    assert!(st.snapshot().running);
    assert_eq!(st.on_key_event(EV_KEY, KEY_A, 1), NOTIFY);
    assert!(!st.snapshot().running);
}

#[test]
fn other_keys_and_events_ignored() {
    let mut st = with_hotkey(KEY_A);
    let before = st.snapshot();
    assert_eq!(st.on_key_event(EV_KEY, 31, 1), QUIET);
    assert_eq!(st.on_key_event(2, KEY_A, 1), QUIET);
    assert_eq!(st.on_key_event(0, KEY_A, 1), QUIET);
    assert_eq!(st.snapshot(), before);
}

#[test]
fn hold_mode_clicks_while_held() {
    let mut st = with_hotkey(KEY_A);
    st.set_hold_mode(true);
    let before = st.snapshot();
    assert_eq!(st.on_key_event(EV_KEY, KEY_A, 1), NOTIFY);
    assert!(st.snapshot().running);
    assert_eq!(st.on_key_event(EV_KEY, KEY_A, 2), QUIET);
    assert!(st.snapshot().running);
    assert_eq!(st.on_key_event(EV_KEY, KEY_A, 0), NOTIFY);
    assert_eq!(st.snapshot(), before);
    // a release stops clicking even when it was started by the button
    st.transition(Msg::Toggle);
    assert_eq!(st.on_key_event(EV_KEY, KEY_A, 0), NOTIFY);
    assert!(!st.snapshot().running);
}

#[test]
fn clear_hotkey() {
    let mut st = with_hotkey(KEY_A);
    st.transition(Msg::Toggle);
    st.transition(Msg::ClearHotkey);
    let s = st.snapshot();
    assert_eq!(s.hotkey_code, 0);
    assert!(s.running, "outside hold mode clearing keeps clicking");
    assert_eq!(st.on_key_event(EV_KEY, KEY_A, 1), QUIET);
    assert_eq!(st.on_key_event(EV_KEY, 0, 1), QUIET);

    let mut st = with_hotkey(KEY_A);
    st.set_hold_mode(true);
    st.transition(Msg::Toggle);
    st.transition(Msg::ClearHotkey);
    assert!(!st.snapshot().running);
}

#[test]
fn fields_and_button() {
    let mut st = AppState::new();
    st.set_field(Field::Interval, "0");
    assert_eq!(st.snapshot().interval_ms, 1);
    st.set_field(Field::Interval, "25");
    st.set_field(Field::Hold, "10");
    st.set_field(Field::IntervalJitter, "5");
    st.set_field(Field::HoldJitter, "x");
    st.select_button(MouseButton::Right);
    let s = st.snapshot();
    assert_eq!((s.interval_ms, s.hold_ms, s.interval_jitter, s.hold_jitter), (25, 10, 5, 0));
    assert_eq!(s.button_code, BTN_RIGHT);
    st.select_button(MouseButton::Left);
    assert_eq!(st.snapshot().button_code, BTN_LEFT);
}

#[test]
fn shutdown_paths() {
    let mut st = AppState::new();
    st.transition(Msg::Toggle);
    assert!(st.on_clicker_failure());
    let s = st.snapshot();
    assert!(s.shutdown && !s.running);
    assert!(!st.on_clicker_failure());

    let mut st = AppState::new();
    st.transition(Msg::Toggle);
    st.request_shutdown();
    let s = st.snapshot();
    assert!(s.shutdown && !s.running);
}
