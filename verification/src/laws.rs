//! Properties that hold across the operations of the library.

use vstd::prelude::*;
use crate::clicker::{ClickerStep, step_allowed, timing_of};
use crate::keys::{EV_KEY, KEY_ESC};
use crate::state::{
    Field, Msg, Snapshot, after_field, after_key_event, after_msg, button_code_of, notify,
    quiet,
};
use crate::state::{KeyOutcome, MouseButton};
use crate::view::{Rgb, Tint, screen_of};
use crate::keys::key_name_of;

verus! {

/// Toggling twice gives back the state one started from.
pub proof fn lemma_toggle_twice(s: Snapshot)
    ensures
        after_msg(after_msg(s, Msg::Toggle), Msg::Toggle) == s,
        after_msg(s, Msg::Toggle).running == !s.running,
{
}

/// Events that are not key events change nothing and wake nobody.
pub proof fn lemma_other_events_ignored(s: Snapshot, ev_type: u16, code: u16, value: i32)
    requires
        ev_type != EV_KEY,
    ensures
        after_key_event(s, ev_type, code, value) == (s, quiet()),
{
}

/// Without a hotkey, and outside a capture, key events change nothing.
pub proof fn lemma_no_hotkey_keys_ignored(s: Snapshot, ev_type: u16, code: u16, value: i32)
    requires
        !s.grabbing,
        s.hotkey_code == 0,
    ensures
        after_key_event(s, ev_type, code, value) == (s, quiet()),
{
}

/// During a capture only key presses count: Escape ends the capture and
/// keeps the old hotkey, any other key becomes the hotkey. Either way the
/// capture ends and the window is refreshed; releases and repeats change
/// nothing.
pub proof fn lemma_capture(s: Snapshot, code: u16, value: i32)
    requires
        s.grabbing,
    ensures
        value != 1 ==> after_key_event(s, EV_KEY, code, value) == (s, quiet()),
        value == 1 ==> {
            let (t, out) = after_key_event(s, EV_KEY, code, value);
            &&& !t.grabbing
            &&& out.notify
            &&& t.running == s.running
            &&& t.hotkey_code == (if code == KEY_ESC { s.hotkey_code } else { code })
        },
{
}

/// After "Set", the next press of a key other than Escape makes it the
/// hotkey and changes nothing else.
pub proof fn lemma_set_then_press(s: Snapshot, code: u16)
    requires
        code != KEY_ESC,
    ensures
        after_key_event(after_msg(s, Msg::StartGrab), EV_KEY, code, 1).0 == (Snapshot {
            hotkey_code: code,
            grabbing: false,
            ..s
        }),
{
}

/// Outside a capture, pressing the hotkey toggles clicking. In hold mode,
/// releasing it stops clicking whatever the state, so a press and release
/// from a stopped state click exactly while the key is held and end where
/// they began.
pub proof fn lemma_hotkey(s: Snapshot)
    requires
        !s.grabbing,
        s.hotkey_code != 0,
    ensures
        after_key_event(s, EV_KEY, s.hotkey_code, 1) == (after_msg(s, Msg::Toggle), notify()),
        s.hold_mode ==> after_key_event(s, EV_KEY, s.hotkey_code, 0) == (
            Snapshot { running: false, ..s },
            notify(),
        ),
        s.hold_mode && !s.running ==> {
            let pressed = after_key_event(s, EV_KEY, s.hotkey_code, 1).0;
            &&& pressed.running
            &&& after_key_event(pressed, EV_KEY, s.hotkey_code, 0).0 == s
        },
        !s.hold_mode ==> after_key_event(s, EV_KEY, s.hotkey_code, 0) == (s, quiet()),
{
}

/// Outside a capture, an event for any key but the hotkey changes nothing
/// and wakes nobody, whether it is a press, a release or a repeat: only the
/// hotkey starts or stops clicking, and releasing another key while the
/// hotkey is held leaves clicking on.
pub proof fn lemma_only_the_hotkey_counts(s: Snapshot, ev_type: u16, code: u16, value: i32)
    requires
        !s.grabbing,
        s.hotkey_code == 0 || code != s.hotkey_code,
    ensures
        after_key_event(s, ev_type, code, value) == (s, KeyOutcome { notify: false, pause_ms: 0 }),
{
}

/// Each button of the window changes only what it is for: the toggle flips
/// clicking, "Set" starts a capture, and "Clear" forgets the hotkey and
/// stops clicking only in hold mode, leaving it as it was otherwise.
pub proof fn lemma_buttons(s: Snapshot)
    ensures
        after_msg(s, Msg::Toggle) == (Snapshot { running: !s.running, ..s }),
        after_msg(s, Msg::StartGrab) == (Snapshot { grabbing: true, ..s }),
        after_msg(s, Msg::ClearHotkey) == (Snapshot {
            hotkey_code: 0,
            running: s.running && !s.hold_mode,
            ..s
        }),
        !s.hold_mode ==> after_msg(s, Msg::ClearHotkey).running == s.running,
{
}

/// The hotkey label shows the capture prompt in yellow whenever a capture
/// is under way, whatever else holds; otherwise it shows the hotkey's name,
/// or "None" when there is none, in the text colour. The status and the
/// toggle button follow whether clicking runs, and nothing else.
pub proof fn lemma_screen(s: Snapshot, t: Snapshot)
    ensures
        s.grabbing ==> screen_of(s).hotkey_label == "Press a key..."@ && screen_of(s).hotkey_tint
            == Tint::Yellow,
        !s.grabbing ==> screen_of(s).hotkey_tint == Tint::Rgb(Rgb { r: 255, g: 255, b: 255 }),
        !s.grabbing && s.hotkey_code == 0 ==> screen_of(s).hotkey_label == "None"@,
        !s.grabbing && s.hotkey_code != 0 ==> screen_of(s).hotkey_label == key_name_of(
            s.hotkey_code,
        ),
        screen_of(s).status_label == (if s.running { "Running"@ } else { "Stopped"@ }),
        screen_of(s).toggle_label == (if s.running { "STOP"@ } else { "START"@ }),
        s.running == t.running ==> {
            &&& screen_of(s).status_label == screen_of(t).status_label
            &&& screen_of(s).status_tint == screen_of(t).status_tint
            &&& screen_of(s).toggle_label == screen_of(t).toggle_label
            &&& screen_of(s).toggle_tint == screen_of(t).toggle_tint
        },
{
}

/// Clearing the hotkey leaves no hotkey, stops clicking in hold mode, and
/// from then on key events outside a capture change nothing.
pub proof fn lemma_clear_disarms(s: Snapshot, ev_type: u16, code: u16, value: i32)
    requires
        !s.grabbing,
    ensures
        after_msg(s, Msg::ClearHotkey).hotkey_code == 0,
        s.hold_mode ==> !after_msg(s, Msg::ClearHotkey).running,
        after_key_event(after_msg(s, Msg::ClearHotkey), ev_type, code, value) == (
            after_msg(s, Msg::ClearHotkey),
            quiet(),
        ),
{
}

/// Every change keeps the state well formed.
pub proof fn lemma_changes_keep_wf(
    s: Snapshot,
    msg: Msg,
    field: Field,
    text: Seq<char>,
    button: MouseButton,
    ev_type: u16,
    code: u16,
    value: i32,
)
    requires
        s.wf(),
    ensures
        after_msg(s, msg).wf(),
        after_field(s, field, text).wf(),
        (Snapshot { button_code: button_code_of(button), ..s }).wf(),
        after_key_event(s, ev_type, code, value).0.wf(),
{
}

/// Once the program is closing it stays so, whatever happens, and the
/// clicker's only step is to stop.
pub proof fn lemma_shutdown_is_final(
    s: Snapshot,
    msg: Msg,
    field: Field,
    text: Seq<char>,
    button: MouseButton,
    on: bool,
    ev_type: u16,
    code: u16,
    value: i32,
    step: ClickerStep,
)
    requires
        s.shutdown,
    ensures
        after_msg(s, msg).shutdown,
        after_field(s, field, text).shutdown,
        (Snapshot { button_code: button_code_of(button), ..s }).shutdown,
        (Snapshot { hold_mode: on, ..s }).shutdown,
        after_key_event(s, ev_type, code, value).0.shutdown,
        step_allowed(s, step) ==> step is Stop,
{
}

/// A click holds the button for the hold setting give or take its jitter,
/// never less than 0 ms, and lasts the interval give or take its jitter,
/// never less than 1 ms. Without jitter both are exactly the settings.
pub proof fn lemma_click_bounds(s: Snapshot, step: ClickerStep)
    requires
        s.wf(),
        step_allowed(s, step),
        step is Click,
    ensures
        ({
            let t = step->Click_0@;
            &&& t.button == s.button_code
            &&& t.hold_ms <= s.hold_ms + s.hold_jitter
            &&& t.hold_ms >= s.hold_ms - s.hold_jitter
            &&& 1 <= t.cycle_ms <= s.interval_ms + s.interval_jitter
            &&& t.cycle_ms >= s.interval_ms - s.interval_jitter
            &&& s.hold_jitter == 0 ==> t.hold_ms == s.hold_ms
            &&& s.interval_jitter == 0 ==> t.cycle_ms == s.interval_ms
        }),
{
    let plan = step->Click_0;
    let (hd, id) = choose|hold_draw: int, interval_draw: int|
        {
            &&& -s.hold_jitter <= hold_draw <= s.hold_jitter
            &&& -s.interval_jitter <= interval_draw <= s.interval_jitter
            &&& plan@ == timing_of(s.button_code, s.hold_ms, hold_draw, s.interval_ms, interval_draw)
        };
    assert(plan@ == timing_of(s.button_code, s.hold_ms, hd, s.interval_ms, id));
}

} // verus!
