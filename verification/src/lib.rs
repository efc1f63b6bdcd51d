//! Decision logic of a hotkey-driven auto clicker: the shared settings and
//! their state machine, the click cycle timing, text fields, key labels and
//! the colours and labels the window shows.

pub mod clicker;
pub mod fields;
pub mod keys;
pub mod laws;
pub mod state;
pub mod view;
