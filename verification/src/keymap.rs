//! Key bindings of the agents overview and the keys that belong to the
//! text editor, over a key event described by plain values.
use vstd::prelude::*;

verus! {

/// Whether a key was pressed, repeated or released.
#[derive(Clone, Copy, Debug, PartialEq, Eq, Structural)]
pub enum KeyKind {
    Press,
    Repeat,
    Release,
}

/// The keys the bindings tell apart.
#[derive(Clone, Copy, Debug, PartialEq, Eq, Structural)]
pub enum KeyCodeInput {
    Char(char),
    Backspace,
    Delete,
    Other,
}

/// A key event: the key, the modifiers held (AltGr as the combination a
/// keyboard layout uses for it), and its kind.
#[derive(Clone, Copy, Debug, PartialEq, Eq, Structural)]
pub struct KeyInput {
    pub code: KeyCodeInput,
    pub control: bool,
    pub alt: bool,
    pub altgr: bool,
    pub kind: KeyKind,
}

/// The bindings of the agents overview.
#[derive(Clone, Copy, Debug, PartialEq, Eq, Structural)]
pub struct AgentsKeymap;

/// Whether the key is Control with `c`.
pub open spec fn is_control_char(key: KeyInput, c: char) -> bool {
    key.control && key.code == KeyCodeInput::Char(c)
}

fn control(key: KeyInput, character: char) -> (r: bool)
    ensures
        r == is_control_char(key, character),
{
    key.control && key.code == KeyCodeInput::Char(character)
}

impl AgentsKeymap {
    /// Control+O resumes.
    pub fn resume(self, key: KeyInput) -> (r: bool)
        ensures
            r == is_control_char(key, 'o'),
    {
        control(key, 'o')
    }

    /// Control+F searches.
    pub fn search(self, key: KeyInput) -> (r: bool)
        ensures
            r == is_control_char(key, 'f'),
    {
        control(key, 'f')
    }

    /// Control+N starts a new task.
    pub fn new_task(self, key: KeyInput) -> (r: bool)
        ensures
            r == is_control_char(key, 'n'),
    {
        control(key, 'n')
    }

    /// Control+R renames.
    pub fn rename(self, key: KeyInput) -> (r: bool)
        ensures
            r == is_control_char(key, 'r'),
    {
        control(key, 'r')
    }

    /// Control+X stops.
    pub fn stop(self, key: KeyInput) -> (r: bool)
        ensures
            r == is_control_char(key, 'x'),
    {
        control(key, 'x')
    }

    /// Control+S toggles grouping.
    pub fn toggle_grouping(self, key: KeyInput) -> (r: bool)
        ensures
            r == is_control_char(key, 's'),
    {
        control(key, 's')
    }
}

/// The letters that, with Control, are editing commands of the editor.
pub open spec fn editor_control_letter(c: char) -> bool {
    c == 'a' || c == 'b' || c == 'e' || c == 'f' || c == 'h' || c == 'j' || c == 'k' || c == 'm'
        || c == 'n' || c == 'p' || c == 'u' || c == 'w' || c == 'y'
}

/// Whether a key belongs to the text editor: a press or repeat (not a
/// character typed with AltGr) of Control with an editing letter, Alt+D,
/// or Backspace or Delete with Control or Alt.
pub open spec fn editor_key(key: KeyInput) -> bool {
    if !(key.kind == KeyKind::Press || key.kind == KeyKind::Repeat) {
        false
    } else if (key.code matches KeyCodeInput::Char(_)) && key.altgr {
        false
    } else {
        match key.code {
            KeyCodeInput::Char(c) => (key.control && editor_control_letter(c)) || (!(key.control
                && editor_control_letter(c)) && c == 'd' && key.alt),
            KeyCodeInput::Backspace | KeyCodeInput::Delete => key.control || key.alt,
            KeyCodeInput::Other => false,
        }
    }
}

/// Whether a key belongs to the text editor (`editor_key`).
pub fn is_editor_key_event(key: KeyInput) -> (r: bool)
    ensures
        r == editor_key(key),
{
    if !(key.kind == KeyKind::Press || key.kind == KeyKind::Repeat) {
        return false;
    }
    let is_char = match key.code {
        KeyCodeInput::Char(_) => true,
        _ => false,
    };
    if is_char && key.altgr {
        return false;
    }
    match key.code {
        KeyCodeInput::Char(c) => {
            let letter = c == 'a' || c == 'b' || c == 'e' || c == 'f' || c == 'h' || c == 'j' || c
                == 'k' || c == 'm' || c == 'n' || c == 'p' || c == 'u' || c == 'w' || c == 'y';
            if letter && key.control {
                true
            } else {
                c == 'd' && key.alt
            }
        },
        KeyCodeInput::Backspace | KeyCodeInput::Delete => key.control || key.alt,
        KeyCodeInput::Other => false,
    }
}

/// Whether a key is literal text input: a character that is not an ASCII
/// control character, typed without Control or Alt.
pub open spec fn plain_text_key(key: KeyInput) -> bool {
    match key.code {
        KeyCodeInput::Char(c) => !((c as u32) < 32 || c == '\x7f') && !key.control && !key.alt,
        _ => false,
    }
}

/// Whether a key is literal text input (`plain_text_key`).
pub fn is_plain_text_key_event(key: KeyInput) -> (r: bool)
    ensures
        r == plain_text_key(key),
{
    match key.code {
        KeyCodeInput::Char(c) => !((c as u32) < 32 || c == '\x7f') && !key.control && !key.alt,
        _ => false,
    }
}

} // verus!
