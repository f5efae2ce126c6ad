//! Input events as the session core sees them: plain values carrying exactly
//! what the routing logic reads from the terminal driver's events.

use vstd::prelude::*;

verus! {

/// A key press, reduced to the codes the session routes on.
#[derive(Clone, Copy, Debug, PartialEq, Eq, Structural)]
pub enum Key {
    Char(char),
    Enter,
    Esc,
    Backspace,
    Delete,
    Left,
    Right,
    Up,
    Down,
    Home,
    End,
    PageUp,
    PageDown,
    Tab,
    BackTab,
    Other,
}

/// A mouse action, reduced to what focus and scrolling react to.
#[derive(Clone, Copy, Debug, PartialEq, Eq, Structural)]
pub enum MouseKind {
    LeftDown,
    ScrollUp,
    ScrollDown,
    ScrollLeft,
    ScrollRight,
    Other,
}

/// One input event from the terminal driver.
#[derive(Clone, Debug)]
pub enum Event {
    Key { code: Key, ctrl: bool },
    Mouse { kind: MouseKind, row: u16 },
    Resize,
    Other,
}

/// The vertical extents of the three panes on screen, as half-open row
/// ranges `[top, bottom)`.  The renderer computes these; mouse routing only
/// compares rows against them.
#[derive(Clone, Copy, Debug)]
pub struct PaneLayout {
    pub chat_top: u16,
    pub chat_bottom: u16,
    pub input_top: u16,
    pub input_bottom: u16,
    pub logs_top: u16,
    pub logs_bottom: u16,
}

} // verus!
