use jefe_ui::pty_encoding::{
    ctrl_char_to_byte, function_key_to_bytes, key_to_bytes, mouse_event_to_bytes,
    should_arm_paste_enter_suppression, should_disarm_paste_enter_suppression,
    should_suppress_synthetic_enter, FullscreenMouseEvent, InputMode, KeyCode, KeyEvent,
    KeyModifiers, MouseButton, MouseEventKind,
};

fn key_event(code: KeyCode, modifiers: KeyModifiers) -> KeyEvent {
    KeyEvent::new(code, modifiers)
}

#[test]
fn plain_enter_maps_to_cr() {
    let key = key_event(KeyCode::Enter, KeyModifiers::none());
    assert_eq!(key_to_bytes(&key, false), Some(vec![b'\r']));
}

#[test]
fn shift_enter_maps_to_backslash_cr() {
    let key = key_event(KeyCode::Enter, KeyModifiers::shift());
    assert_eq!(key_to_bytes(&key, false), Some(b"\\\r".to_vec()));
}

#[test]
fn synthetic_enter_is_only_suppressed_when_armed() {
    let enter = key_event(KeyCode::Enter, KeyModifiers::none());
    assert!(should_suppress_synthetic_enter(true, &enter));
    assert!(!should_suppress_synthetic_enter(false, &enter));
}

#[test]
fn non_enter_key_disarms_paste_suppression_when_armed() {
    let key = key_event(KeyCode::Char('x'), KeyModifiers::none());
    assert!(should_disarm_paste_enter_suppression(true, &key));
    assert!(!should_disarm_paste_enter_suppression(false, &key));

    let enter = key_event(KeyCode::Enter, KeyModifiers::none());
    assert!(!should_disarm_paste_enter_suppression(true, &enter));
}

#[test]
fn paste_shortcut_arming_only_applies_in_terminal_capture() {
    let ctrl_v = key_event(KeyCode::Char('v'), KeyModifiers::control());
    assert!(should_arm_paste_enter_suppression(
        &ctrl_v,
        InputMode::TerminalCapture
    ));
    assert!(!should_arm_paste_enter_suppression(&ctrl_v, InputMode::Normal));

    let cmd_v = key_event(KeyCode::Char('v'), KeyModifiers::super_key());
    assert!(should_arm_paste_enter_suppression(
        &cmd_v,
        InputMode::TerminalCapture
    ));

    let meta_v = key_event(KeyCode::Char('v'), KeyModifiers::meta());
    assert!(should_arm_paste_enter_suppression(
        &meta_v,
        InputMode::TerminalCapture
    ));

    let alt_v = key_event(KeyCode::Char('v'), KeyModifiers::alt());
    assert!(!should_arm_paste_enter_suppression(
        &alt_v,
        InputMode::TerminalCapture
    ));

    let plain_v = key_event(KeyCode::Char('v'), KeyModifiers::none());
    assert!(!should_arm_paste_enter_suppression(
        &plain_v,
        InputMode::TerminalCapture
    ));
}

#[test]
fn passthrough_enter_keeps_cr_for_common_newline_modifiers() {
    let plain_enter = key_event(KeyCode::Enter, KeyModifiers::none());
    let shift_enter = key_event(KeyCode::Enter, KeyModifiers::shift());
    let ctrl_enter = key_event(KeyCode::Enter, KeyModifiers::control());

    assert_eq!(key_to_bytes(&plain_enter, true), Some(vec![b'\r']));
    assert_eq!(key_to_bytes(&shift_enter, true), Some(vec![b'\r']));
    assert_eq!(key_to_bytes(&ctrl_enter, true), Some(vec![b'\r']));
}

#[test]
fn passthrough_enter_with_alt_preserves_escape_prefix() {
    let alt_enter = key_event(KeyCode::Enter, KeyModifiers::alt());
    assert_eq!(key_to_bytes(&alt_enter, true), Some(vec![0x1b, b'\r']));
}

#[test]
fn alt_char_prefixes_escape() {
    let alt_x = key_event(KeyCode::Char('x'), KeyModifiers::alt());
    assert_eq!(key_to_bytes(&alt_x, false), Some(b"\x1bx".to_vec()));
}

#[test]
fn alt_shift_enter_does_not_double_prefix_escape() {
    let key = key_event(
        KeyCode::Enter,
        KeyModifiers::alt().union(KeyModifiers::shift()),
    );
    assert_eq!(key_to_bytes(&key, false), Some(b"\\\x1b\r".to_vec()));
}

#[test]
fn shift_alt_enter_maps_to_backslash_esc_cr() {
    let key = key_event(
        KeyCode::Enter,
        KeyModifiers::shift().union(KeyModifiers::alt()),
    );
    assert_eq!(key_to_bytes(&key, false), Some(b"\\\x1b\r".to_vec()));
}

#[test]
fn ctrl_backslash_maps_to_fs() {
    let key = key_event(KeyCode::Char('\\'), KeyModifiers::control());
    assert_eq!(ctrl_char_to_byte('\\'), Some(0x1c));
    assert_eq!(key_to_bytes(&key, false), Some(vec![0x1c]));
}

#[test]
fn ctrl_underscore_maps_to_us() {
    let key = key_event(KeyCode::Char('_'), KeyModifiers::control());
    assert_eq!(ctrl_char_to_byte('_'), Some(0x1f));
    assert_eq!(key_to_bytes(&key, false), Some(vec![0x1f]));
}

#[test]
fn ctrl_enter_maps_to_lf() {
    let key = key_event(KeyCode::Enter, KeyModifiers::control());
    assert_eq!(key_to_bytes(&key, false), Some(vec![b'\n']));
}

#[test]
fn function_keys_use_expected_xterm_sequences() {
    let f1 = key_event(KeyCode::F(1), KeyModifiers::none());
    let f2 = key_event(KeyCode::F(2), KeyModifiers::none());
    let f12 = key_event(KeyCode::F(12), KeyModifiers::none());
    let insert = key_event(KeyCode::Insert, KeyModifiers::none());

    assert_eq!(key_to_bytes(&f1, false), Some(b"\x1bOP".to_vec()));
    assert_eq!(key_to_bytes(&f2, false), Some(b"\x1bOQ".to_vec()));
    assert_eq!(key_to_bytes(&f12, false), Some(b"\x1b[24~".to_vec()));
    assert_ne!(key_to_bytes(&f2, false), key_to_bytes(&insert, false));
}

#[test]
fn modified_arrow_keys_use_xterm_sequences() {
    let ctrl_up = key_event(KeyCode::Up, KeyModifiers::control());
    let alt_down = key_event(KeyCode::Down, KeyModifiers::alt());
    let shift_right = key_event(KeyCode::Right, KeyModifiers::shift());
    let ctrl_alt_left = key_event(
        KeyCode::Left,
        KeyModifiers::control().union(KeyModifiers::alt()),
    );

    // ctrl parameter = 5
    assert_eq!(key_to_bytes(&ctrl_up, false), Some(b"\x1b[1;5A".to_vec()));
    // alt parameter = 3
    assert_eq!(key_to_bytes(&alt_down, false), Some(b"\x1b[1;3B".to_vec()));
    // shift parameter = 2
    assert_eq!(key_to_bytes(&shift_right, false), Some(b"\x1b[1;2C".to_vec()));
    // ctrl + alt parameter = 7
    assert_eq!(key_to_bytes(&ctrl_alt_left, false), Some(b"\x1b[1;7D".to_vec()));
}

#[test]
fn modified_edit_keys_use_xterm_sequences() {
    let ctrl_pageup = key_event(KeyCode::PageUp, KeyModifiers::control());
    let alt_pagedown = key_event(KeyCode::PageDown, KeyModifiers::alt());
    let shift_delete = key_event(KeyCode::Delete, KeyModifiers::shift());
    let ctrl_alt_insert = key_event(
        KeyCode::Insert,
        KeyModifiers::control().union(KeyModifiers::alt()),
    );
    let shift_home = key_event(KeyCode::Home, KeyModifiers::shift());
    let ctrl_end = key_event(KeyCode::End, KeyModifiers::control());

    assert_eq!(key_to_bytes(&ctrl_pageup, false), Some(b"\x1b[5;5~".to_vec()));
    assert_eq!(key_to_bytes(&alt_pagedown, false), Some(b"\x1b[6;3~".to_vec()));
    assert_eq!(key_to_bytes(&shift_delete, false), Some(b"\x1b[3;2~".to_vec()));
    assert_eq!(key_to_bytes(&ctrl_alt_insert, false), Some(b"\x1b[2;7~".to_vec()));
    assert_eq!(key_to_bytes(&shift_home, false), Some(b"\x1b[1;2H".to_vec()));
    assert_eq!(key_to_bytes(&ctrl_end, false), Some(b"\x1b[1;5F".to_vec()));
}

#[test]
fn modified_function_keys_use_xterm_sequences() {
    let ctrl_f1 = key_event(KeyCode::F(1), KeyModifiers::control());
    let alt_f5 = key_event(KeyCode::F(5), KeyModifiers::alt());
    let ctrl_alt_f12 = key_event(
        KeyCode::F(12),
        KeyModifiers::control().union(KeyModifiers::alt()),
    );

    assert_eq!(key_to_bytes(&ctrl_f1, false), Some(b"\x1b[1;5P".to_vec()));
    assert_eq!(key_to_bytes(&alt_f5, false), Some(b"\x1b[15;3~".to_vec()));
    assert_eq!(key_to_bytes(&ctrl_alt_f12, false), Some(b"\x1b[24;7~".to_vec()));
}

#[test]
fn alt_encoding_is_consistent_and_not_double_encoded() {
    // Alt-up modified should be \x1b[1;3A, not double ESC-prefixed (e.g. not \x1b\x1b[1;3A)
    let alt_up = key_event(KeyCode::Up, KeyModifiers::alt());
    assert_eq!(key_to_bytes(&alt_up, false), Some(b"\x1b[1;3A".to_vec()));

    // Alt-F1 modified should be \x1b[1;3P, not \x1b\x1b[1;3P
    let alt_f1 = key_event(KeyCode::F(1), KeyModifiers::alt());
    assert_eq!(key_to_bytes(&alt_f1, false), Some(b"\x1b[1;3P".to_vec()));
}

#[test]
fn shift_mouse_events_are_not_forwarded_to_pty() {
    let mut event = FullscreenMouseEvent::new(MouseEventKind::Down(MouseButton::Left), 9, 4);
    event.modifiers = KeyModifiers::shift();
    assert_eq!(mouse_event_to_bytes(&event), None);
}

#[test]
fn left_click_uses_sgr_press_encoding() {
    let event = FullscreenMouseEvent::new(MouseEventKind::Down(MouseButton::Left), 9, 4);
    assert_eq!(
        mouse_event_to_bytes(&event),
        Some(b"\x1b[<0;10;5M".to_vec())
    );
}

#[test]
fn right_release_uses_sgr_release_suffix() {
    let event = FullscreenMouseEvent::new(MouseEventKind::Up(MouseButton::Right), 3, 7);
    assert_eq!(mouse_event_to_bytes(&event), Some(b"\x1b[<2;4;8m".to_vec()));
}

#[test]
fn drag_with_alt_and_ctrl_sets_modifier_bits() {
    let mut event = FullscreenMouseEvent::new(MouseEventKind::Drag(MouseButton::Left), 0, 0);
    event.modifiers = KeyModifiers::alt().union(KeyModifiers::control());
    assert_eq!(
        mouse_event_to_bytes(&event),
        Some(b"\x1b[<56;1;1M".to_vec())
    );
}

// ---------------------------------------------------------------------------
// Further cases
// ---------------------------------------------------------------------------

#[test]
fn ctrl_letters_ignore_case() {
    for (upper, lower) in ('A'..='Z').zip('a'..='z') {
        assert_eq!(ctrl_char_to_byte(upper), ctrl_char_to_byte(lower));
    }
    assert_eq!(ctrl_char_to_byte('a'), Some(0x01));
    assert_eq!(ctrl_char_to_byte('C'), Some(0x03));
    assert_eq!(ctrl_char_to_byte('z'), Some(0x1a));
}

#[test]
fn ctrl_digit_and_punctuation_aliases() {
    assert_eq!(ctrl_char_to_byte('@'), Some(0x00));
    assert_eq!(ctrl_char_to_byte(' '), Some(0x00));
    assert_eq!(ctrl_char_to_byte('2'), Some(0x00));
    assert_eq!(ctrl_char_to_byte('['), Some(0x1b));
    assert_eq!(ctrl_char_to_byte('3'), Some(0x1b));
    assert_eq!(ctrl_char_to_byte(']'), Some(0x1d));
    assert_eq!(ctrl_char_to_byte('^'), Some(0x1e));
    assert_eq!(ctrl_char_to_byte('/'), Some(0x1f));
    assert_eq!(ctrl_char_to_byte('?'), Some(0x7f));
    assert_eq!(ctrl_char_to_byte('8'), Some(0x7f));
    // other ASCII characters keep their low five bits
    assert_eq!(ctrl_char_to_byte('0'), Some(0x10));
    assert_eq!(ctrl_char_to_byte('9'), Some(0x19));
    assert_eq!(ctrl_char_to_byte('{'), Some(0x1b));
}

#[test]
fn ctrl_non_ascii_has_no_byte() {
    assert_eq!(ctrl_char_to_byte('é'), None);
    let key = key_event(KeyCode::Char('é'), KeyModifiers::control());
    assert_eq!(key_to_bytes(&key, false), None);
}

#[test]
fn control_bytes_are_c0_or_del() {
    for code in 0u32..0x80 {
        let c = char::from_u32(code).unwrap();
        let b = ctrl_char_to_byte(c).unwrap();
        assert!(b < 0x20 || b == 0x7f);
    }
}

#[test]
fn plain_chars_are_utf8_encoded() {
    let e_acute = key_event(KeyCode::Char('é'), KeyModifiers::none());
    assert_eq!(key_to_bytes(&e_acute, false), Some(vec![0xc3, 0xa9]));
    let euro = key_event(KeyCode::Char('€'), KeyModifiers::none());
    assert_eq!(key_to_bytes(&euro, false), Some("€".as_bytes().to_vec()));
    let smile = key_event(KeyCode::Char('😀'), KeyModifiers::none());
    assert_eq!(key_to_bytes(&smile, false), Some("😀".as_bytes().to_vec()));
    let alt_euro = key_event(KeyCode::Char('€'), KeyModifiers::alt());
    assert_eq!(
        key_to_bytes(&alt_euro, false),
        Some(b"\x1b\xe2\x82\xac".to_vec())
    );
}

#[test]
fn alt_prefixes_escape_on_simple_keys() {
    for code in [KeyCode::Backspace, KeyCode::Tab, KeyCode::Esc, KeyCode::Char('q')] {
        let plain = key_to_bytes(&key_event(code, KeyModifiers::none()), false).unwrap();
        let alt = key_to_bytes(&key_event(code, KeyModifiers::alt()), false).unwrap();
        let mut expected = vec![0x1b];
        expected.extend_from_slice(&plain);
        assert_eq!(alt, expected);
    }
    let ctrl_alt_c = key_event(
        KeyCode::Char('c'),
        KeyModifiers::control().union(KeyModifiers::alt()),
    );
    assert_eq!(key_to_bytes(&ctrl_alt_c, false), Some(vec![0x1b, 0x03]));
    let alt_esc = key_event(KeyCode::Esc, KeyModifiers::alt());
    assert_eq!(key_to_bytes(&alt_esc, false), Some(vec![0x1b, 0x1b]));
}

#[test]
fn unmodified_special_keys() {
    let cases: [(KeyCode, &[u8]); 13] = [
        (KeyCode::Backspace, b"\x7f"),
        (KeyCode::Tab, b"\t"),
        (KeyCode::Esc, b"\x1b"),
        (KeyCode::Up, b"\x1b[A"),
        (KeyCode::Down, b"\x1b[B"),
        (KeyCode::Right, b"\x1b[C"),
        (KeyCode::Left, b"\x1b[D"),
        (KeyCode::Home, b"\x1b[H"),
        (KeyCode::End, b"\x1b[F"),
        (KeyCode::PageUp, b"\x1b[5~"),
        (KeyCode::PageDown, b"\x1b[6~"),
        (KeyCode::Delete, b"\x1b[3~"),
        (KeyCode::Insert, b"\x1b[2~"),
    ];
    for (code, expected) in cases {
        assert_eq!(
            key_to_bytes(&key_event(code, KeyModifiers::none()), false),
            Some(expected.to_vec())
        );
    }
}

#[test]
fn all_function_keys() {
    let plain: [&[u8]; 12] = [
        b"\x1bOP", b"\x1bOQ", b"\x1bOR", b"\x1bOS", b"\x1b[15~", b"\x1b[17~", b"\x1b[18~",
        b"\x1b[19~", b"\x1b[20~", b"\x1b[21~", b"\x1b[23~", b"\x1b[24~",
    ];
    for (i, expected) in plain.iter().enumerate() {
        let n = (i + 1) as u8;
        assert_eq!(function_key_to_bytes(n, None), Some(expected.to_vec()));
    }
    assert_eq!(function_key_to_bytes(4, Some(2)), Some(b"\x1b[1;2S".to_vec()));
    assert_eq!(function_key_to_bytes(11, Some(16)), Some(b"\x1b[23;16~".to_vec()));
    assert_eq!(function_key_to_bytes(0, None), None);
    assert_eq!(function_key_to_bytes(13, Some(3)), None);
    assert_eq!(
        key_to_bytes(&key_event(KeyCode::F(13), KeyModifiers::none()), false),
        None
    );
}

#[test]
fn meta_and_super_share_the_modifier_bit() {
    let meta_up = key_event(KeyCode::Up, KeyModifiers::meta());
    let super_up = key_event(KeyCode::Up, KeyModifiers::super_key());
    assert_eq!(key_to_bytes(&meta_up, false), Some(b"\x1b[1;9A".to_vec()));
    assert_eq!(key_to_bytes(&super_up, false), Some(b"\x1b[1;9A".to_vec()));
    let all = KeyModifiers::shift()
        .union(KeyModifiers::alt())
        .union(KeyModifiers::control())
        .union(KeyModifiers::meta());
    assert_eq!(
        key_to_bytes(&key_event(KeyCode::Delete, all), false),
        Some(b"\x1b[3;16~".to_vec())
    );
    // Hyper alone adds no parameter
    let hyper_up = key_event(KeyCode::Up, KeyModifiers::hyper());
    assert_eq!(key_to_bytes(&hyper_up, false), Some(b"\x1b[A".to_vec()));
}

#[test]
fn unencodable_keys_send_nothing() {
    assert_eq!(
        key_to_bytes(&key_event(KeyCode::Other, KeyModifiers::none()), false),
        None
    );
}

#[test]
fn suppression_flags_partition_keys() {
    for code in [KeyCode::Enter, KeyCode::Char('a'), KeyCode::Tab] {
        let key = key_event(code, KeyModifiers::none());
        assert_ne!(
            should_suppress_synthetic_enter(true, &key),
            should_disarm_paste_enter_suppression(true, &key)
        );
        assert!(!should_suppress_synthetic_enter(false, &key));
        assert!(!should_disarm_paste_enter_suppression(false, &key));
    }
    let ctrl_shift_v = key_event(
        KeyCode::Char('V'),
        KeyModifiers::control().union(KeyModifiers::shift()),
    );
    assert!(should_arm_paste_enter_suppression(
        &ctrl_shift_v,
        InputMode::TerminalCapture
    ));
    let ctrl_c = key_event(KeyCode::Char('c'), KeyModifiers::control());
    assert!(!should_arm_paste_enter_suppression(
        &ctrl_c,
        InputMode::TerminalCapture
    ));
}

#[test]
fn mouse_buttons_scrolls_and_coordinates() {
    let middle = FullscreenMouseEvent::new(MouseEventKind::Down(MouseButton::Middle), 0, 0);
    assert_eq!(mouse_event_to_bytes(&middle), Some(b"\x1b[<1;1;1M".to_vec()));
    let scrolls = [
        (MouseEventKind::ScrollUp, b"\x1b[<64;2;3M"),
        (MouseEventKind::ScrollDown, b"\x1b[<65;2;3M"),
        (MouseEventKind::ScrollLeft, b"\x1b[<66;2;3M"),
        (MouseEventKind::ScrollRight, b"\x1b[<67;2;3M"),
    ];
    for (kind, expected) in scrolls {
        let event = FullscreenMouseEvent::new(kind, 1, 2);
        assert_eq!(mouse_event_to_bytes(&event), Some(expected.to_vec()));
    }
    let moved = FullscreenMouseEvent::new(MouseEventKind::Moved, 1, 2);
    assert_eq!(mouse_event_to_bytes(&moved), None);
    // coordinates saturate at the largest u16
    let far = FullscreenMouseEvent::new(MouseEventKind::Up(MouseButton::Left), 65535, 65534);
    assert_eq!(
        mouse_event_to_bytes(&far),
        Some(b"\x1b[<0;65535;65535m".to_vec())
    );
    let mut ctrl_scroll = FullscreenMouseEvent::new(MouseEventKind::ScrollRight, 0, 0);
    ctrl_scroll.modifiers = KeyModifiers::control().union(KeyModifiers::alt());
    assert_eq!(
        mouse_event_to_bytes(&ctrl_scroll),
        Some(b"\x1b[<91;1;1M".to_vec())
    );
}
