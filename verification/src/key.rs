use vstd::prelude::*;

verus! {

/// A key press, reduced to the parts the dispatch logic reads: the key code
/// and whether the control modifier was held.  The terminal backend's own
/// event type is translated into this one at the process edge.
#[derive(Clone, Copy, Debug, PartialEq, Eq, Structural)]
pub enum KeyInput {
    Char(char),
    CtrlChar(char),
    Up,
    Down,
    Left,
    Right,
    Tab,
    Esc,
    Enter,
    Backspace,
    Delete,
    Home,
    End,
    Other,
}

} // verus!
