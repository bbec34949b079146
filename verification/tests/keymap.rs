use lime_tui::keymap::{
    is_editor_key_event, is_plain_text_key_event, AgentsKeymap, KeyCodeInput, KeyInput, KeyKind,
};

fn key(code: KeyCodeInput, control: bool, alt: bool) -> KeyInput {
    KeyInput {
        code,
        control,
        alt,
        altgr: false,
        kind: KeyKind::Press,
    }
}

#[test]
fn codex_agents_defaults_are_stable() {
    let keymap = AgentsKeymap;
    assert!(keymap.resume(key(KeyCodeInput::Char('o'), true, false)));
    assert!(keymap.search(key(KeyCodeInput::Char('f'), true, false)));
    assert!(keymap.new_task(key(KeyCodeInput::Char('n'), true, false)));
    assert!(keymap.rename(key(KeyCodeInput::Char('r'), true, false)));
    assert!(keymap.stop(key(KeyCodeInput::Char('x'), true, false)));
    assert!(keymap.toggle_grouping(key(KeyCodeInput::Char('s'), true, false)));
    assert!(!keymap.resume(key(KeyCodeInput::Char('o'), false, false)));
}

#[test]
fn codex_editor_control_aliases_are_routed_to_textarea() {
    for character in ['a', 'b', 'e', 'f', 'h', 'j', 'k', 'm', 'n', 'p', 'u', 'w', 'y'] {
        assert!(is_editor_key_event(key(KeyCodeInput::Char(character), true, false)));
    }
    assert!(is_editor_key_event(key(KeyCodeInput::Backspace, false, true)));
    assert!(!is_editor_key_event(key(KeyCodeInput::Char('c'), true, false)));
    assert!(!is_editor_key_event(key(KeyCodeInput::Char('m'), false, false)));
}

#[test]
fn editor_keys_need_a_press_and_no_altgr() {
    let mut k = key(KeyCodeInput::Char('a'), true, false);
    k.kind = KeyKind::Release;
    assert!(!is_editor_key_event(k));
    k.kind = KeyKind::Repeat;
    assert!(is_editor_key_event(k));
    k.altgr = true;
    assert!(!is_editor_key_event(k));
    assert!(is_editor_key_event(key(KeyCodeInput::Char('d'), false, true)));
    assert!(is_editor_key_event(key(KeyCodeInput::Delete, true, false)));
    assert!(!is_editor_key_event(key(KeyCodeInput::Delete, false, false)));
}

#[test]
fn shifted_characters_are_plain_text() {
    assert!(is_plain_text_key_event(key(KeyCodeInput::Char('G'), false, false)));
}

#[test]
fn control_and_alt_characters_are_not_plain_text() {
    assert!(!is_plain_text_key_event(key(KeyCodeInput::Char('g'), true, false)));
    assert!(!is_plain_text_key_event(key(KeyCodeInput::Char('g'), false, true)));
    assert!(!is_plain_text_key_event(key(KeyCodeInput::Char('\u{1b}'), false, false)));
    assert!(!is_plain_text_key_event(key(KeyCodeInput::Backspace, false, false)));
}
