//! Terminal input events, as the plain values the pickers read of them.
use vstd::prelude::*;

use crate::pager_overlay::{PagerKey, PagerKeyEvent};

verus! {

/// The keys the pickers tell apart.
#[derive(Clone, Copy, Debug, PartialEq, Eq, Structural)]
pub enum Key {
    Esc,
    Enter,
    Backspace,
    Up,
    Down,
    PageUp,
    PageDown,
    Home,
    End,
    Char(char),
    Other,
}

/// A key event: the key, the modifiers held and whether it is a press
/// (rather than a release or repeat). `other_modifiers` stands for Shift,
/// Super, Hyper and Meta.
#[derive(Clone, Copy, Debug, PartialEq, Eq, Structural)]
pub struct KeyPress {
    pub code: Key,
    pub control: bool,
    pub alt: bool,
    pub other_modifiers: bool,
    pub press: bool,
}

impl KeyPress {
    /// Whether no modifier at all is held.
    pub open spec fn unmodified(self) -> bool {
        !self.control && !self.alt && !self.other_modifiers
    }
}

/// A terminal event.
#[derive(Clone, Debug)]
pub enum InputEvent {
    Key(KeyPress),
    Paste(String),
    /// Focus, mouse and resize events.
    Other,
}

/// The pager's view of a key.
pub open spec fn pager_key_spec(key: KeyPress) -> PagerKeyEvent {
    PagerKeyEvent {
        code: match key.code {
            Key::Esc => PagerKey::Esc,
            Key::Char(c) => PagerKey::Char(c),
            Key::Up => PagerKey::Up,
            Key::Down => PagerKey::Down,
            Key::PageUp => PagerKey::PageUp,
            Key::PageDown => PagerKey::PageDown,
            Key::Home => PagerKey::Home,
            Key::End => PagerKey::End,
            _ => PagerKey::Other,
        },
        control: key.control,
        press: key.press,
    }
}

/// The pager's view of a key.
pub fn pager_key(key: KeyPress) -> (r: PagerKeyEvent)
    ensures
        r == pager_key_spec(key),
{
    PagerKeyEvent {
        code: match key.code {
            Key::Esc => PagerKey::Esc,
            Key::Char(c) => PagerKey::Char(c),
            Key::Up => PagerKey::Up,
            Key::Down => PagerKey::Down,
            Key::PageUp => PagerKey::PageUp,
            Key::PageDown => PagerKey::PageDown,
            Key::Home => PagerKey::Home,
            Key::End => PagerKey::End,
            _ => PagerKey::Other,
        },
        control: key.control,
        press: key.press,
    }
}

} // verus!
