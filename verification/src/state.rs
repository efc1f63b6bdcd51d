//! The settings and status shared by the window, the key listener and the
//! clicker, and every change they make to them.

use vstd::prelude::*;
use crate::fields::{amount_value, interval_value, parse_amount, parse_interval};
use crate::keys::{BTN_LEFT, BTN_RIGHT, EV_KEY, KEY_ESC};

verus! {

/// A plain copy of the shared state.
#[derive(Clone, Copy, PartialEq, Eq, Debug, Structural)]
pub struct Snapshot {
    /// Whether clicks are being sent.
    pub running: bool,
    /// Whether the next key press becomes the hotkey.
    pub grabbing: bool,
    /// The mouse button that is clicked (`BTN_LEFT` or `BTN_RIGHT`).
    pub button_code: u16,
    /// Time from the start of one click to the start of the next, in ms.
    pub interval_ms: u32,
    /// How long the button is held down, in ms.
    pub hold_ms: u32,
    /// Largest random change of the interval, in ms.
    pub interval_jitter: u32,
    /// Largest random change of the hold time, in ms.
    pub hold_jitter: u32,
    /// The hotkey's key code, 0 when there is none.
    pub hotkey_code: u16,
    /// Whether clicking lasts only while the hotkey is held.
    pub hold_mode: bool,
    /// Whether the program is closing.
    pub shutdown: bool,
}

impl Snapshot {
    /// The button is one of the two mouse buttons and the interval is at
    /// least one millisecond.
    pub open spec fn wf(self) -> bool {
        &&& (self.button_code == BTN_LEFT || self.button_code == BTN_RIGHT)
        &&& self.interval_ms >= 1
    }
}

/// The state at start-up: stopped, left button, one click a second held for
/// 50 ms, no jitter, no hotkey.
pub open spec fn initial_snapshot() -> Snapshot {
    Snapshot {
        running: false,
        grabbing: false,
        button_code: BTN_LEFT,
        interval_ms: 1000,
        hold_ms: 50,
        interval_jitter: 0,
        hold_jitter: 0,
        hotkey_code: 0,
        hold_mode: false,
        shutdown: false,
    }
}

/// The actions of the window's buttons.
#[derive(Clone, Copy, PartialEq, Eq, Debug, Structural)]
pub enum Msg {
    /// Start or stop clicking.
    Toggle,
    /// Make the next key press the hotkey.
    StartGrab,
    /// Forget the hotkey.
    ClearHotkey,
}

/// The mouse buttons that can be clicked.
#[derive(Clone, Copy, PartialEq, Eq, Debug, Structural)]
pub enum MouseButton {
    Left,
    Right,
}

/// The numeric fields of the window.
#[derive(Clone, Copy, PartialEq, Eq, Debug, Structural)]
pub enum Field {
    Interval,
    IntervalJitter,
    Hold,
    HoldJitter,
}

/// What the key listener does after a key event: whether to tell the window
/// to refresh, and how long to pause first.
#[derive(Clone, Copy, PartialEq, Eq, Debug, Structural)]
pub struct KeyOutcome {
    pub notify: bool,
    pub pause_ms: u64,
}

pub open spec fn toggled(s: Snapshot) -> Snapshot {
    Snapshot { running: !s.running, ..s }
}

/// What a button of the window does to the state.
pub open spec fn after_msg(s: Snapshot, msg: Msg) -> Snapshot {
    match msg {
        Msg::Toggle => toggled(s),
        Msg::StartGrab => Snapshot { grabbing: true, ..s },
        Msg::ClearHotkey => Snapshot {
            hotkey_code: 0,
            running: if s.hold_mode { false } else { s.running },
            ..s
        },
    }
}

pub open spec fn button_code_of(b: MouseButton) -> u16 {
    match b {
        MouseButton::Left => BTN_LEFT,
        MouseButton::Right => BTN_RIGHT,
    }
}

/// What typing `text` into a field does to the state.
pub open spec fn after_field(s: Snapshot, field: Field, text: Seq<char>) -> Snapshot {
    match field {
        Field::Interval => Snapshot { interval_ms: interval_value(text), ..s },
        Field::IntervalJitter => Snapshot { interval_jitter: amount_value(text), ..s },
        Field::Hold => Snapshot { hold_ms: amount_value(text), ..s },
        Field::HoldJitter => Snapshot { hold_jitter: amount_value(text), ..s },
    }
}

pub open spec fn quiet() -> KeyOutcome {
    KeyOutcome { notify: false, pause_ms: 0 }
}

pub open spec fn notify() -> KeyOutcome {
    KeyOutcome { notify: true, pause_ms: 0 }
}

/// What an input event of type `ev_type` with key `code` and `value`
/// (1 press, 0 release, 2 repeat) does, and what the listener does next.
pub open spec fn after_key_event(s: Snapshot, ev_type: u16, code: u16, value: i32) -> (
    Snapshot,
    KeyOutcome,
) {
    if ev_type != EV_KEY {
        (s, quiet())
    } else if s.grabbing {
        if value != 1 {
            (s, quiet())
        } else if code == KEY_ESC {
            (Snapshot { grabbing: false, ..s }, notify())
        } else {
            (
                Snapshot { hotkey_code: code, grabbing: false, ..s },
                KeyOutcome { notify: true, pause_ms: 200 },
            )
        }
    } else if s.hotkey_code == 0 || code != s.hotkey_code {
        (s, quiet())
    } else if s.hold_mode {
        if value == 1 {
            (toggled(s), notify())
        } else if value == 0 {
            (Snapshot { running: false, ..s }, notify())
        } else {
            (s, quiet())
        }
    } else if value == 1 {
        (toggled(s), notify())
    } else {
        (s, quiet())
    }
}

/// The shared state, always well formed.
pub struct AppState {
    snap: Snapshot,
}

impl View for AppState {
    type V = Snapshot;

    closed spec fn view(&self) -> Snapshot {
        self.snap
    }
}

impl AppState {
    #[verifier::type_invariant]
    closed spec fn inv(self) -> bool {
        self.snap.wf()
    }

    pub fn new() -> (state: AppState)
        ensures
            state@ == initial_snapshot(),
    {
        AppState {
            snap: Snapshot {
                running: false,
                grabbing: false,
                button_code: BTN_LEFT,
                interval_ms: 1000,
                hold_ms: 50,
                interval_jitter: 0,
                hold_jitter: 0,
                hotkey_code: 0,
                hold_mode: false,
                shutdown: false,
            },
        }
    }

    /// A copy of the current state.
    pub fn snapshot(&self) -> (s: Snapshot)
        ensures
            s == self@,
            s.wf(),
    {
        proof {
            use_type_invariant(self);
        }
        self.snap
    }

    /// Applies a button of the window. The window is to be refreshed after.
    pub fn transition(&mut self, msg: Msg)
        ensures
            final(self)@ == after_msg(old(self)@, msg),
    {
        proof {
            use_type_invariant(&*self);
        }
        match msg {
            Msg::Toggle => {
                self.snap.running = !self.snap.running;
            },
            Msg::StartGrab => {
                self.snap.grabbing = true;
            },
            Msg::ClearHotkey => {
                self.snap.hotkey_code = 0;
                if self.snap.hold_mode {
                    self.snap.running = false;
                }
            },
        }
    }

    /// Chooses the mouse button that is clicked.
    pub fn select_button(&mut self, button: MouseButton)
        ensures
            final(self)@ == (Snapshot { button_code: button_code_of(button), ..old(self)@ }),
    {
        proof {
            use_type_invariant(&*self);
        }
        self.snap.button_code = match button {
            MouseButton::Left => BTN_LEFT,
            MouseButton::Right => BTN_RIGHT,
        };
    }

    /// Turns hold mode on or off.
    pub fn set_hold_mode(&mut self, on: bool)
        ensures
            final(self)@ == (Snapshot { hold_mode: on, ..old(self)@ }),
    {
        proof {
            use_type_invariant(&*self);
        }
        self.snap.hold_mode = on;
    }

    /// Takes the text of a numeric field.
    pub fn set_field(&mut self, field: Field, text: &str)
        ensures
            final(self)@ == after_field(old(self)@, field, text@),
    {
        proof {
            use_type_invariant(&*self);
        }
        match field {
            Field::Interval => {
                self.snap.interval_ms = parse_interval(text);
            },
            Field::IntervalJitter => {
                self.snap.interval_jitter = parse_amount(text);
            },
            Field::Hold => {
                self.snap.hold_ms = parse_amount(text);
            },
            Field::HoldJitter => {
                self.snap.hold_jitter = parse_amount(text);
            },
        }
    }

    /// The window was closed: stop clicking and shut down. The window is to
    /// be refreshed after.
    pub fn request_shutdown(&mut self)
        ensures
            final(self)@ == (Snapshot { shutdown: true, running: false, ..old(self)@ }),
    {
        proof {
            use_type_invariant(&*self);
        }
        self.snap.shutdown = true;
        self.snap.running = false;
    }

    /// The clicker could not start. Unless already shutting down, stop and
    /// shut down; the result says whether the window is to be refreshed.
    pub fn on_clicker_failure(&mut self) -> (refresh: bool)
        ensures
            refresh == !old(self)@.shutdown,
            final(self)@ == (if old(self)@.shutdown {
                old(self)@
            } else {
                Snapshot { shutdown: true, running: false, ..old(self)@ }
            }),
    {
        proof {
            use_type_invariant(&*self);
        }
        if self.snap.shutdown {
            false
        } else {
            self.snap.shutdown = true;
            self.snap.running = false;
            true
        }
    }

    /// Handles one input event seen by the global key listener.
    pub fn on_key_event(&mut self, ev_type: u16, code: u16, value: i32) -> (out: KeyOutcome)
        ensures
            (final(self)@, out) == after_key_event(old(self)@, ev_type, code, value),
    {
        proof {
            use_type_invariant(&*self);
        }
        if ev_type != EV_KEY {
            return KeyOutcome { notify: false, pause_ms: 0 };
        }
        if self.snap.grabbing {
            if value != 1 {
                return KeyOutcome { notify: false, pause_ms: 0 };
            }
            if code == KEY_ESC {
                self.snap.grabbing = false;
                return KeyOutcome { notify: true, pause_ms: 0 };
            }
            self.snap.hotkey_code = code;
            self.snap.grabbing = false;
            return KeyOutcome { notify: true, pause_ms: 200 };
        }
        let target = self.snap.hotkey_code;
        if target == 0 || code != target {
            return KeyOutcome { notify: false, pause_ms: 0 };
        }
        if self.snap.hold_mode {
            if value == 1 {
                self.transition(Msg::Toggle);
                KeyOutcome { notify: true, pause_ms: 0 }
            } else if value == 0 {
                self.snap.running = false;
                KeyOutcome { notify: true, pause_ms: 0 }
            } else {
                KeyOutcome { notify: false, pause_ms: 0 }
            }
        } else if value == 1 {
            self.transition(Msg::Toggle);
            KeyOutcome { notify: true, pause_ms: 0 }
        } else {
            KeyOutcome { notify: false, pause_ms: 0 }
        }
    }
}

} // verus!
