use vstd::prelude::*;

verus! {

/// A key as the terminal reports it.
#[derive(Debug, Clone, Copy, PartialEq, Eq, Structural)]
pub enum KeyCode {
    Up,
    Down,
    Enter,
    Esc,
    Delete,
    Backspace,
    Char(char),
    /// Any key gpick has no binding for.
    Other,
}

/// The modifier keys held with a key.
#[derive(Debug, Clone, Copy, PartialEq, Eq, Structural)]
pub struct KeyModifiers {
    pub shift: bool,
    pub control: bool,
}

impl KeyModifiers {
    /// No modifier held.
    pub fn none() -> (r: KeyModifiers)
        ensures
            !r.shift && !r.control,
    {
        KeyModifiers { shift: false, control: false }
    }

    /// Shift held.
    pub fn shift() -> (r: KeyModifiers)
        ensures
            r.shift && !r.control,
    {
        KeyModifiers { shift: true, control: false }
    }

    /// Control held.
    pub fn control() -> (r: KeyModifiers)
        ensures
            !r.shift && r.control,
    {
        KeyModifiers { shift: false, control: true }
    }
}

/// A key press.
#[derive(Debug, Clone, Copy, PartialEq, Eq, Structural)]
pub struct KeyEvent {
    pub code: KeyCode,
    pub modifiers: KeyModifiers,
}

impl KeyEvent {
    pub fn new(code: KeyCode, modifiers: KeyModifiers) -> (r: KeyEvent)
        ensures
            r.code == code,
            r.modifiers == modifiers,
    {
        KeyEvent { code, modifiers }
    }
}

/// Ctrl+C arrives as a plain key once raw mode disables ISIG; it quits
/// from every screen.
pub fn is_ctrl_c(key: &KeyEvent) -> (r: bool)
    ensures
        r == (key.code == KeyCode::Char('c') && key.modifiers.control),
{
    match key.code {
        KeyCode::Char(c) => c == 'c' && key.modifiers.control,
        _ => false,
    }
}

} // verus!
