use rlicker::keys::EV_KEY;
use rlicker::state::{AppState, Msg};
use rlicker::view::{
    accent, bg, clear_bg, go_bg, green, muted, render, set_bg, stop_bg, surface, text, ui_step,
    Rgb, Tint, UiStep,
};

#[test]
fn palette() {
    assert_eq!(bg(), Rgb { r: 0, g: 0, b: 0 });
    assert_eq!(surface(), Rgb { r: 20, g: 20, b: 20 });
    assert_eq!(accent(), Rgb { r: 137, g: 180, b: 250 });
    assert_eq!(text(), Rgb { r: 255, g: 255, b: 255 });
    assert_eq!(muted(), Rgb { r: 108, g: 112, b: 134 });
    assert_eq!(green(), Rgb { r: 166, g: 227, b: 161 });
    assert_eq!(go_bg(), Rgb { r: 26, g: 51, b: 32 });
    assert_eq!(stop_bg(), Rgb { r: 61, g: 21, b: 21 });
    assert_eq!(set_bg(), Rgb { r: 69, g: 71, b: 90 });
    assert_eq!(clear_bg(), Rgb { r: 74, g: 42, b: 40 });
}

#[test]
fn stopped_screen() {
    let st = AppState::new();
    let s = render(&st);
    assert_eq!(s.hotkey_label, "None");
    assert_eq!(s.hotkey_tint, Tint::Rgb(text()));
    assert_eq!(s.status_label, "Stopped");
    assert_eq!(s.status_tint, Tint::Rgb(muted()));
    assert_eq!(s.toggle_label, "START");
    assert_eq!(s.toggle_tint, Tint::Rgb(go_bg()));
}

#[test]
fn running_and_grabbing_screens() {
    let mut st = AppState::new();
    st.transition(Msg::Toggle);
    st.transition(Msg::StartGrab);
    let s = render(&st);
    assert_eq!(s.hotkey_label, "Press a key...");
    assert_eq!(s.hotkey_tint, Tint::Yellow);
    assert_eq!(s.status_label, "Running");
    assert_eq!(s.status_tint, Tint::Rgb(green()));
    assert_eq!(s.toggle_label, "STOP");
    assert_eq!(s.toggle_tint, Tint::Rgb(stop_bg()));
    st.on_key_event(EV_KEY, 100, 1);
    let s = render(&st);
    assert_eq!(s.hotkey_label, "R.Alt");
    assert_eq!(s.hotkey_tint, Tint::Rgb(text()));
    st.transition(Msg::StartGrab);
    st.on_key_event(EV_KEY, 183, 1);
    assert_eq!(render(&st).hotkey_label, "Key 183");
}

#[test]
fn refresh_quits_after_shutdown() {
    let mut st = AppState::new();
    match ui_step(&st) {
        UiStep::Redraw(s) => assert_eq!(s.status_label, "Stopped"),
        UiStep::Quit => panic!("no shutdown yet"),
    }
    st.request_shutdown();
    assert!(matches!(ui_step(&st), UiStep::Quit));
}
