//! Keys as the terminal reports them, and the global key map.
use vstd::prelude::*;

use crate::event::action::Action;

verus! {

/// The key that was pressed.
#[derive(Debug, Clone, Copy, PartialEq, Eq, Structural)]
pub enum KeyCode {
    Char(char),
    Tab,
    BackTab,
    Left,
    Right,
    Up,
    Down,
    Enter,
    Esc,
    Home,
    End,
    Backspace,
    Delete,
    /// Any other key (function keys, page keys, ...).
    Other,
}

/// No modifier held.
pub const NONE: u8 = 0;

/// Shift held (and nothing else).
pub const SHIFT: u8 = 0x01;

/// Control held (and nothing else).
pub const CONTROL: u8 = 0x02;

/// A key press: the key and the bit set of held modifiers (shift 0x01,
/// control 0x02, alt 0x04, super 0x08, hyper 0x10, meta 0x20).
#[derive(Debug, Clone, Copy, PartialEq, Eq, Structural)]
pub struct KeyEvent {
    pub code: KeyCode,
    pub modifiers: u8,
}

/// The global actions of a key; they run before the page's own.
pub open spec fn global_actions(key: KeyEvent) -> Seq<Action> {
    match key.code {
        KeyCode::Char(c) => if c == 'q' && key.modifiers == 0 {
            seq![Action::Quit]
        } else if c == 'c' && key.modifiers == 2 {
            seq![Action::Quit]
        } else if c == 'l' {
            seq![Action::NextPage]
        } else if c == 'h' {
            seq![Action::PrevPage]
        } else if c == '?' {
            seq![Action::ToggleHelp]
        } else if c == 'r' {
            seq![Action::RefreshData]
        } else if c == 'T' {
            seq![Action::CycleTheme]
        } else {
            Seq::empty()
        },
        KeyCode::Tab => seq![Action::NextPage],
        KeyCode::BackTab => seq![Action::PrevPage],
        KeyCode::Right => seq![Action::NextPage],
        KeyCode::Left => seq![Action::PrevPage],
        _ => Seq::empty(),
    }
}

/// Global key map: `q` (no modifier) and Ctrl+C quit; Tab, Right and `l`
/// go to the next page; Shift+Tab, Left and `h` to the previous one; `?`
/// toggles help; `r` refreshes; `T` cycles the theme.
pub fn map_key(key: KeyEvent) -> (r: Vec<Action>)
    ensures
        r@ == global_actions(key),
{
    let mut v: Vec<Action> = Vec::new();
    match key.code {
        KeyCode::Char(c) => {
            if c == 'q' && key.modifiers == NONE {
                v.push(Action::Quit);
            } else if c == 'c' && key.modifiers == CONTROL {
                v.push(Action::Quit);
            } else if c == 'l' {
                v.push(Action::NextPage);
            } else if c == 'h' {
                v.push(Action::PrevPage);
            } else if c == '?' {
                v.push(Action::ToggleHelp);
            } else if c == 'r' {
                v.push(Action::RefreshData);
            } else if c == 'T' {
                v.push(Action::CycleTheme);
            }
        },
        KeyCode::Tab => v.push(Action::NextPage),
        KeyCode::BackTab => v.push(Action::PrevPage),
        KeyCode::Right => v.push(Action::NextPage),
        KeyCode::Left => v.push(Action::PrevPage),
        _ => {},
    }
    assert(v@ =~= global_actions(key));
    v
}

} // verus!
