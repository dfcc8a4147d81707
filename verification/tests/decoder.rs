use oscore::keyboard::{key_name, DecodedKey, KeyCode, KeyState, Keyboard, EXTENDED_PREFIX};

#[test]
fn single_byte_press_completes_one_event() {
    let mut kb = Keyboard::new();
    let ev = kb.add_byte(0x1E);
    let ev = ev.expect("a make code must complete an event");
    assert_eq!(ev.code, KeyCode::A);
    assert_eq!(ev.state, KeyState::Down);
}

#[test]
fn extended_prefix_alone_completes_nothing() {
    let mut kb = Keyboard::new();
    assert!(kb.add_byte(EXTENDED_PREFIX).is_none());
}

#[test]
fn unshifted_letter_decodes_lowercase() {
    let mut kb = Keyboard::new();
    let ev = kb.add_byte(0x1E).unwrap();
    let key = kb.process_keyevent(ev).unwrap();
    assert_eq!(key, DecodedKey::Unicode('a'));
}

#[test]
fn held_shift_selects_the_upper_legend() {
    let mut kb = Keyboard::new();
    let shift_down = kb.add_byte(0x2A).unwrap();
    assert_eq!(shift_down.code, KeyCode::LeftShift);
    assert!(kb.process_keyevent(shift_down).is_none());

    let ev = kb.add_byte(0x1E).unwrap();
    assert_eq!(kb.process_keyevent(ev).unwrap(), DecodedKey::Unicode('A'));

    let ev = kb.add_byte(0x03).unwrap();
    assert_eq!(kb.process_keyevent(ev).unwrap(), DecodedKey::Unicode('@'));

    let shift_up = kb.add_byte(0x2A | 0x80).unwrap();
    assert_eq!(shift_up.state, KeyState::Up);
    assert!(kb.process_keyevent(shift_up).is_none());

    let ev = kb.add_byte(0x1E).unwrap();
    assert_eq!(kb.process_keyevent(ev).unwrap(), DecodedKey::Unicode('a'));
}

#[test]
fn release_completes_an_event_but_decodes_nothing() {
    let mut kb = Keyboard::new();
    let ev = kb.add_byte(0x9E).unwrap();
    assert_eq!(ev.code, KeyCode::A);
    assert_eq!(ev.state, KeyState::Up);
    assert!(kb.process_keyevent(ev).is_none());
}

#[test]
fn unknown_byte_is_silently_dropped() {
    let mut kb = Keyboard::new();
    assert!(kb.add_byte(0x60).is_none());
    let ev = kb.add_byte(0x1E).unwrap();
    assert_eq!(ev.code, KeyCode::A);
}

#[test]
fn extended_sequence_names_an_extended_key() {
    let mut kb = Keyboard::new();
    assert!(kb.add_byte(EXTENDED_PREFIX).is_none());
    let ev = kb.add_byte(0x48).unwrap();
    assert_eq!(ev.code, KeyCode::ArrowUp);
    assert_eq!(ev.state, KeyState::Down);
    let key = kb.process_keyevent(ev).unwrap();
    assert_eq!(key, DecodedKey::RawKey(KeyCode::ArrowUp));
}

#[test]
fn unknown_extended_byte_is_silently_dropped() {
    let mut kb = Keyboard::new();
    assert!(kb.add_byte(EXTENDED_PREFIX).is_none());
    assert!(kb.add_byte(0x7F).is_none());
    let ev = kb.add_byte(0x10).unwrap();
    assert_eq!(ev.code, KeyCode::Q);
}

#[test]
fn digits_and_punctuation_decode() {
    let mut kb = Keyboard::new();
    let ev = kb.add_byte(0x02).unwrap();
    assert_eq!(kb.process_keyevent(ev).unwrap(), DecodedKey::Unicode('1'));
    let ev = kb.add_byte(0x39).unwrap();
    assert_eq!(kb.process_keyevent(ev).unwrap(), DecodedKey::Unicode(' '));
    let ev = kb.add_byte(0x1C).unwrap();
    assert_eq!(kb.process_keyevent(ev).unwrap(), DecodedKey::Unicode('\n'));
    let ev = kb.add_byte(0x35).unwrap();
    assert_eq!(kb.process_keyevent(ev).unwrap(), DecodedKey::Unicode('/'));
}

#[test]
fn keys_without_a_character_decode_raw() {
    let mut kb = Keyboard::new();
    let ev = kb.add_byte(0x01).unwrap();
    assert_eq!(
        kb.process_keyevent(ev).unwrap(),
        DecodedKey::RawKey(KeyCode::Escape)
    );
    let ev = kb.add_byte(0x3A).unwrap();
    assert_eq!(
        kb.process_keyevent(ev).unwrap(),
        DecodedKey::RawKey(KeyCode::CapsLock)
    );
}

#[test]
fn raw_keys_have_console_names() {
    assert_eq!(key_name(KeyCode::Escape), b"Esc".to_vec());
    assert_eq!(key_name(KeyCode::ArrowUp), b"Up".to_vec());
    assert_eq!(key_name(KeyCode::ArrowRight), b"Right".to_vec());
    assert_eq!(key_name(KeyCode::CapsLock), b"Caps".to_vec());
}
