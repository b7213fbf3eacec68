use dayrecord::keyboard::{
    hook_kind, keycode_to_kind, vk_to_kind, KeyEvent, KeyEventKind, ScriptedKeyboard,
    WinKeyboardBuffer, MAC_VK_ANSI_V, MAC_VK_DELETE, MAC_VK_RETURN, MAC_VK_SPACE, MAC_VK_TAB,
    VK_PROCESSKEY_U16,
};

#[test]
fn scripted_replays_all() {
    let mut kb = ScriptedKeyboard::new(vec![KeyEvent {
        at_millis: 1_750_000_000_000,
        kind: KeyEventKind::Char('a'),
    }]);
    assert_eq!(kb.poll_events().len(), 1);
    assert!(kb.poll_events().is_empty());
}

#[test]
fn ime_key_classified() {
    assert!(matches!(
        vk_to_kind(0xE5, true, false),
        Some(KeyEventKind::ImeComposition)
    ));
}

#[test]
fn letter_mapping() {
    assert_eq!(keycode_to_kind(0, false), Some(KeyEventKind::Char('a')));
    assert_eq!(keycode_to_kind(1, false), Some(KeyEventKind::Char('s')));
    assert_eq!(keycode_to_kind(6, false), Some(KeyEventKind::Char('z')));
    assert_eq!(keycode_to_kind(12, false), Some(KeyEventKind::Char('q')));
}

#[test]
fn digit_mapping() {
    assert_eq!(keycode_to_kind(29, false), Some(KeyEventKind::Char('0')));
    assert_eq!(keycode_to_kind(18, false), Some(KeyEventKind::Char('1')));
    assert_eq!(keycode_to_kind(25, false), Some(KeyEventKind::Char('9')));
}

#[test]
fn special_keys() {
    assert_eq!(keycode_to_kind(MAC_VK_SPACE, false), Some(KeyEventKind::Space));
    assert_eq!(keycode_to_kind(MAC_VK_RETURN, false), Some(KeyEventKind::Enter));
    assert_eq!(keycode_to_kind(MAC_VK_DELETE, false), Some(KeyEventKind::Backspace));
    assert_eq!(keycode_to_kind(MAC_VK_TAB, false), Some(KeyEventKind::Tab));
}

#[test]
fn cmd_v_is_paste() {
    assert_eq!(keycode_to_kind(MAC_VK_ANSI_V, true), Some(KeyEventKind::Paste));
    assert_eq!(keycode_to_kind(MAC_VK_ANSI_V, false), Some(KeyEventKind::Char('v')));
}

#[test]
fn unknown_keys_return_none() {
    assert_eq!(keycode_to_kind(122, false), None);
    assert_eq!(keycode_to_kind(123, false), None);
    assert_eq!(keycode_to_kind(41, false), None);
}

#[test]
fn command_is_ignored_except_for_v() {
    assert_eq!(keycode_to_kind(0, true), Some(KeyEventKind::Char('a')));
    assert_eq!(keycode_to_kind(MAC_VK_SPACE, true), Some(KeyEventKind::Space));
}

#[test]
fn windows_letters_digits_and_shortcuts() {
    assert_eq!(vk_to_kind(0x41, false, false), Some(KeyEventKind::Char('a')));
    assert_eq!(vk_to_kind(0x5A, false, false), Some(KeyEventKind::Char('z')));
    assert_eq!(vk_to_kind(0x37, false, false), Some(KeyEventKind::Char('7')));
    assert_eq!(vk_to_kind(0x43, false, true), Some(KeyEventKind::Copy));
    assert_eq!(vk_to_kind(0x56, false, true), Some(KeyEventKind::Paste));
    assert_eq!(vk_to_kind(0x56, false, false), Some(KeyEventKind::Char('v')));
    assert_eq!(vk_to_kind(0x20, false, false), Some(KeyEventKind::Space));
    assert_eq!(vk_to_kind(0x0D, false, false), Some(KeyEventKind::Enter));
    assert_eq!(vk_to_kind(0x08, false, false), Some(KeyEventKind::Backspace));
    assert_eq!(vk_to_kind(0x09, false, false), Some(KeyEventKind::Tab));
    assert_eq!(vk_to_kind(0x70, false, false), None);
    assert_eq!(vk_to_kind(VK_PROCESSKEY_U16, false, false), Some(KeyEventKind::ImeComposition));
}

#[test]
fn hook_drops_ime_keys() {
    assert_eq!(hook_kind(VK_PROCESSKEY_U16, false), None);
    assert_eq!(hook_kind(0x42, false), Some(KeyEventKind::Char('b')));
}

#[test]
fn win_buffer_collects_and_drains() {
    let mut buf = WinKeyboardBuffer::new();
    buf.push_vk(0x41, 10, false);
    buf.push_vk(VK_PROCESSKEY_U16, 11, false);
    buf.push_vk(0x70, 12, false);
    buf.push_vk(0x56, 13, true);
    let events = buf.poll_events();
    assert_eq!(
        events,
        vec![
            KeyEvent { at_millis: 10, kind: KeyEventKind::Char('a') },
            KeyEvent { at_millis: 13, kind: KeyEventKind::Paste },
        ]
    );
    assert!(buf.poll_events().is_empty());
}

#[test]
fn forty_codes_record_something_without_command() {
    let recorded: Vec<u16> = (0..=u16::MAX).filter(|vk| keycode_to_kind(*vk, false).is_some()).collect();
    assert_eq!(recorded.len(), 40);
    let mut kinds: Vec<String> = recorded.iter().map(|vk| format!("{:?}", keycode_to_kind(*vk, false))).collect();
    kinds.sort();
    kinds.dedup();
    assert_eq!(kinds.len(), 40);
}
