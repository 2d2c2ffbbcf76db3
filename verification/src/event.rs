//! Input events and the abstract actions the engine answers them with.

use vstd::prelude::*;

verus! {

/// Modifier keys held during a key press.
#[derive(Debug, Clone, Copy, PartialEq, Eq, Structural)]
pub struct KeyModifiers {
    /// Control held
    pub ctrl: bool,
    /// Alt held
    pub alt: bool,
    /// Shift held
    pub shift: bool,
}

impl KeyModifiers {
    /// No modifiers held.
    pub fn none() -> (m: Self)
        ensures
            m == (KeyModifiers { ctrl: false, alt: false, shift: false }),
    {
        KeyModifiers { ctrl: false, alt: false, shift: false }
    }

    /// Only control held.
    pub fn ctrl() -> (m: Self)
        ensures
            m == (KeyModifiers { ctrl: true, alt: false, shift: false }),
    {
        KeyModifiers { ctrl: true, alt: false, shift: false }
    }
}

/// The key of a key event.
#[derive(Debug, Clone, Copy, PartialEq, Eq, Structural)]
pub enum KeyCode {
    /// A character key
    Char(char),
    /// The enter key
    Enter,
    /// The escape key
    Esc,
    /// The backspace key
    Backspace,
    /// The tab key
    Tab,
    /// The up arrow
    Up,
    /// The down arrow
    Down,
    /// The left arrow
    Left,
    /// The right arrow
    Right,
}

/// One key press with its modifiers.
#[derive(Debug, Clone, Copy, PartialEq, Eq, Structural)]
pub struct KeyEvent {
    /// The key pressed
    pub code: KeyCode,
    /// The modifiers held
    pub modifiers: KeyModifiers,
}

/// An input event the host hands to the engine.
#[derive(Debug, Clone)]
pub enum Event {
    /// A key press
    Key(KeyEvent),
    /// The terminal was resized to (columns, rows)
    Resize(u16, u16),
    /// A watched file changed
    FileChange(String),
    /// A periodic tick with nothing else to report
    Tick,
}

/// What the host loop should do in response to an event.
#[derive(Debug, Clone, Copy, PartialEq, Eq, Structural)]
pub enum Action {
    /// Exit the loop
    Quit,
    /// Redraw the dashboard
    Render,
    /// Do nothing
    Nothing,
}

} // verus!
