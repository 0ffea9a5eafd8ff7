use vstd::prelude::*;

verus! {

/// A key as the engine sees it; the terminal layer converts its own key
/// events into this type.
#[derive(Debug, Clone, Copy, PartialEq, Eq, Structural)]
pub enum KeyCode {
    Char(char),
    Enter,
    Esc,
    Up,
    Down,
    Left,
    Right,
    PageUp,
    PageDown,
    Tab,
    Backspace,
    Other,
}

/// A key press: the key and whether Control was held.
#[derive(Debug, Clone, Copy, PartialEq, Eq, Structural)]
pub struct KeyEvent {
    pub code: KeyCode,
    pub ctrl: bool,
}

/// The application's named key bindings.
#[derive(Debug, Clone, Copy, PartialEq, Eq, Structural)]
pub enum AppKey {
    Left,
    Right,
    Up,
    Down,
    Quit,
    Edit,
    Select,
}

/// The binding a key stands for, if any: vim-style letters and the arrow
/// keys move, `q` quits, `e` edits and Enter selects.
pub open spec fn app_key_of(code: KeyCode) -> Option<AppKey> {
    match code {
        KeyCode::Char(c) => if c == 'h' {
            Some(AppKey::Left)
        } else if c == 'l' {
            Some(AppKey::Right)
        } else if c == 'k' {
            Some(AppKey::Up)
        } else if c == 'j' {
            Some(AppKey::Down)
        } else if c == 'q' {
            Some(AppKey::Quit)
        } else if c == 'e' {
            Some(AppKey::Edit)
        } else {
            None
        },
        KeyCode::Left => Some(AppKey::Left),
        KeyCode::Right => Some(AppKey::Right),
        KeyCode::Up => Some(AppKey::Up),
        KeyCode::Down => Some(AppKey::Down),
        KeyCode::Enter => Some(AppKey::Select),
        _ => None,
    }
}

/// The key shown for a binding in help texts.
pub open spec fn keycode_of(k: AppKey) -> KeyCode {
    match k {
        AppKey::Left => KeyCode::Char('h'),
        AppKey::Right => KeyCode::Char('l'),
        AppKey::Up => KeyCode::Char('k'),
        AppKey::Down => KeyCode::Char('j'),
        AppKey::Quit => KeyCode::Char('q'),
        AppKey::Edit => KeyCode::Char('e'),
        AppKey::Select => KeyCode::Enter,
    }
}

impl AppKey {
    /// The key that a binding is shown as.
    pub fn as_keycode(&self) -> (r: KeyCode)
        ensures
            r == keycode_of(*self),
    {
        match self {
            AppKey::Left => KeyCode::Char('h'),
            AppKey::Right => KeyCode::Char('l'),
            AppKey::Up => KeyCode::Char('k'),
            AppKey::Down => KeyCode::Char('j'),
            AppKey::Quit => KeyCode::Char('q'),
            AppKey::Edit => KeyCode::Char('e'),
            AppKey::Select => KeyCode::Enter,
        }
    }

    /// The binding of a key, or `None` for a key that has none.
    pub fn from_keycode(code: KeyCode) -> (r: Option<AppKey>)
        ensures
            r == app_key_of(code),
    {
        match code {
            KeyCode::Char(c) => {
                if c == 'h' {
                    Some(AppKey::Left)
                } else if c == 'l' {
                    Some(AppKey::Right)
                } else if c == 'k' {
                    Some(AppKey::Up)
                } else if c == 'j' {
                    Some(AppKey::Down)
                } else if c == 'q' {
                    Some(AppKey::Quit)
                } else if c == 'e' {
                    Some(AppKey::Edit)
                } else {
                    None
                }
            },
            KeyCode::Left => Some(AppKey::Left),
            KeyCode::Right => Some(AppKey::Right),
            KeyCode::Up => Some(AppKey::Up),
            KeyCode::Down => Some(AppKey::Down),
            KeyCode::Enter => Some(AppKey::Select),
            _ => None,
        }
    }
}

} // verus!
