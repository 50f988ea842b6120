use console_session::Key;

#[test]
fn to_ascii_returns_byte_for_every_ascii_code() {
    for code in 0u16..=127 {
        let k = Key::from_code(code);
        assert!(k.is_ascii());
        assert_eq!(k.to_ascii(), Some(code as u8));
    }
}

#[test]
fn to_ascii_returns_nothing_at_and_above_128() {
    for code in [128u16, 200, 255, 1000, 4999, 5020, u16::MAX] {
        let k = Key::from_code(code);
        assert!(!k.is_ascii());
        assert_eq!(k.to_ascii(), None);
    }
}

#[test]
fn named_special_constants_are_not_ascii() {
    let named = [
        Key::LEFT,
        Key::UP,
        Key::RIGHT,
        Key::DOWN,
        Key::F1,
        Key::F2,
        Key::F3,
        Key::F4,
        Key::F5,
        Key::F6,
        Key::F7,
        Key::F8,
        Key::F9,
        Key::F10,
        Key::F11,
        Key::F12,
        Key::ESC,
        Key::DELETE,
        Key::ENTER,
        Key::TAB,
    ];
    for code in named {
        assert!(code >= 128);
        assert_eq!(Key::from_code(code).to_ascii(), None);
    }
}

#[test]
fn arrow_test_accepts_exactly_the_four_arrows() {
    for code in [Key::LEFT, Key::UP, Key::RIGHT, Key::DOWN] {
        assert!(Key::from_code(code).is_arrow_key());
    }
    let other_named = [
        Key::F1,
        Key::F2,
        Key::F3,
        Key::F4,
        Key::F5,
        Key::F6,
        Key::F7,
        Key::F8,
        Key::F9,
        Key::F10,
        Key::F11,
        Key::F12,
        Key::ESC,
        Key::DELETE,
        Key::ENTER,
        Key::TAB,
    ];
    for code in other_named {
        assert!(!Key::from_code(code).is_arrow_key());
    }
    for code in 0u16..=127 {
        assert!(!Key::from_code(code).is_arrow_key());
    }
}

#[test]
fn numeric_and_alphanumeric_follow_ascii_classes() {
    assert!(Key::from_code(Key::DIGIT_5).is_numeric());
    assert!(!Key::from_code(Key::A).is_numeric());
    assert!(Key::from_code(Key::A).is_alphanumeric());
    assert!(!Key::from_code(Key::EXCLAMATION_MARK).is_alphanumeric());
    for code in Key::DIGIT_0..=Key::DIGIT_9 {
        assert!(Key::from_code(code).is_numeric());
        assert!(Key::from_code(code).is_alphanumeric());
    }
    for code in Key::A..=Key::Z {
        assert!(!Key::from_code(code).is_numeric());
        assert!(Key::from_code(code).is_alphanumeric());
    }
    for code in b'A' as u16..=b'Z' as u16 {
        assert!(Key::from_code(code).is_alphanumeric());
    }
}

#[test]
fn classification_is_false_for_every_non_ascii_code() {
    for code in [128u16, 200, Key::LEFT, Key::DOWN, Key::F5, Key::TAB, u16::MAX] {
        let k = Key::from_code(code);
        assert!(!k.is_numeric());
        assert!(!k.is_alphanumeric());
    }
}

#[test]
fn code_round_trips() {
    for code in [0u16, 53, 127, 128, 5000, u16::MAX] {
        assert_eq!(Key::from_code(code).code(), code);
    }
}
