//! What the window shows: its colours, and the labels and colours that
//! follow the state.

use vstd::prelude::*;
use crate::keys::{key_name, key_name_of};
use crate::state::{AppState, Snapshot};

verus! {

/// A colour by its red, green and blue parts.
#[derive(Clone, Copy, PartialEq, Eq, Debug, Structural)]
pub struct Rgb {
    pub r: u8,
    pub g: u8,
    pub b: u8,
}

/// A colour of a label or a button: one given by its parts, or the
/// toolkit's own yellow.
#[derive(Clone, Copy, PartialEq, Eq, Debug, Structural)]
pub enum Tint {
    Rgb(Rgb),
    Yellow,
}

pub open spec fn rgb(r: u8, g: u8, b: u8) -> Rgb {
    Rgb { r, g, b }
}

/// Window background.
pub fn bg() -> (c: Rgb)
    ensures
        c == rgb(0, 0, 0),
{
    Rgb { r: 0, g: 0, b: 0 }
}

/// Background of fields and frames.
pub fn surface() -> (c: Rgb)
    ensures
        c == rgb(20, 20, 20),
{
    Rgb { r: 20, g: 20, b: 20 }
}

/// Section headings and selected choices.
pub fn accent() -> (c: Rgb)
    ensures
        c == rgb(137, 180, 250),
{
    Rgb { r: 137, g: 180, b: 250 }
}

/// Ordinary text.
pub fn text() -> (c: Rgb)
    ensures
        c == rgb(255, 255, 255),
{
    Rgb { r: 255, g: 255, b: 255 }
}

/// Secondary text.
pub fn muted() -> (c: Rgb)
    ensures
        c == rgb(108, 112, 134),
{
    Rgb { r: 108, g: 112, b: 134 }
}

/// The running status.
pub fn green() -> (c: Rgb)
    ensures
        c == rgb(166, 227, 161),
{
    Rgb { r: 166, g: 227, b: 161 }
}

/// The start button.
pub fn go_bg() -> (c: Rgb)
    ensures
        c == rgb(26, 51, 32),
{
    Rgb { r: 26, g: 51, b: 32 }
}

/// The stop button.
pub fn stop_bg() -> (c: Rgb)
    ensures
        c == rgb(61, 21, 21),
{
    Rgb { r: 61, g: 21, b: 21 }
}

/// The button that captures a hotkey.
pub fn set_bg() -> (c: Rgb)
    ensures
        c == rgb(69, 71, 90),
{
    Rgb { r: 69, g: 71, b: 90 }
}

/// The button that clears the hotkey.
pub fn clear_bg() -> (c: Rgb)
    ensures
        c == rgb(74, 42, 40),
{
    Rgb { r: 74, g: 42, b: 40 }
}

/// The parts of the window that follow the state.
pub struct Screen {
    pub hotkey_label: String,
    pub hotkey_tint: Tint,
    pub status_label: String,
    pub status_tint: Tint,
    pub toggle_label: String,
    pub toggle_tint: Tint,
}

/// A `Screen` in plain values.
pub struct ScreenModel {
    pub hotkey_label: Seq<char>,
    pub hotkey_tint: Tint,
    pub status_label: Seq<char>,
    pub status_tint: Tint,
    pub toggle_label: Seq<char>,
    pub toggle_tint: Tint,
}

impl View for Screen {
    type V = ScreenModel;

    open spec fn view(&self) -> ScreenModel {
        ScreenModel {
            hotkey_label: self.hotkey_label@,
            hotkey_tint: self.hotkey_tint,
            status_label: self.status_label@,
            status_tint: self.status_tint,
            toggle_label: self.toggle_label@,
            toggle_tint: self.toggle_tint,
        }
    }
}

/// What the window shows for a state: while a hotkey is being captured, a
/// yellow prompt; else the hotkey's name, or `None`. Then whether clicking
/// runs, and the start or stop button.
pub open spec fn screen_of(s: Snapshot) -> ScreenModel {
    ScreenModel {
        hotkey_label: if s.grabbing {
            "Press a key..."@
        } else if s.hotkey_code == 0 {
            "None"@
        } else {
            key_name_of(s.hotkey_code)
        },
        hotkey_tint: if s.grabbing { Tint::Yellow } else { Tint::Rgb(rgb(255, 255, 255)) },
        status_label: if s.running { "Running"@ } else { "Stopped"@ },
        status_tint: if s.running {
            Tint::Rgb(rgb(166, 227, 161))
        } else {
            Tint::Rgb(rgb(108, 112, 134))
        },
        toggle_label: if s.running { "STOP"@ } else { "START"@ },
        toggle_tint: if s.running {
            Tint::Rgb(rgb(61, 21, 21))
        } else {
            Tint::Rgb(rgb(26, 51, 32))
        },
    }
}

/// Computes what the window shows for the state.
pub fn render(state: &AppState) -> (screen: Screen)
    ensures
        screen@ == screen_of(state@),
{
    let s = state.snapshot();
    let (hotkey_label, hotkey_tint) = if s.grabbing {
        (String::from_str("Press a key..."), Tint::Yellow)
    } else if s.hotkey_code == 0 {
        (String::from_str("None"), Tint::Rgb(text()))
    } else {
        (key_name(s.hotkey_code), Tint::Rgb(text()))
    };
    if s.running {
        Screen {
            hotkey_label,
            hotkey_tint,
            status_label: String::from_str("Running"),
            status_tint: Tint::Rgb(green()),
            toggle_label: String::from_str("STOP"),
            toggle_tint: Tint::Rgb(stop_bg()),
        }
    } else {
        Screen {
            hotkey_label,
            hotkey_tint,
            status_label: String::from_str("Stopped"),
            status_tint: Tint::Rgb(muted()),
            toggle_label: String::from_str("START"),
            toggle_tint: Tint::Rgb(go_bg()),
        }
    }
}

/// What the window does when told to refresh.
pub enum UiStep {
    /// The program is closing: leave the event loop.
    Quit,
    /// Show this and redraw.
    Redraw(Screen),
}

/// Decides the window's response to a refresh.
pub fn ui_step(state: &AppState) -> (step: UiStep)
    ensures
        match step {
            UiStep::Quit => state@.shutdown,
            UiStep::Redraw(screen) => !state@.shutdown && screen@ == screen_of(state@),
        },
{
    let s = state.snapshot();
    if s.shutdown {
        UiStep::Quit
    } else {
        UiStep::Redraw(render(state))
    }
}

} // verus!
