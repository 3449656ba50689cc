use inputbot::{from_keybd_key, get_keybd_key, KeySequence, KeyStep, KeybdKey};

fn key_events(text: &str) -> Vec<KeyStep> {
    KeySequence(text).steps().into_iter().filter(|s| *s != KeyStep::Pause).collect()
}

#[test]
fn hi_bang_brackets_shifted_characters_only() {
    let shift = KeybdKey::LShiftKey;
    assert_eq!(
        key_events("Hi!"),
        vec![
            KeyStep::Press(shift),
            KeyStep::Press(KeybdKey::HKey),
            KeyStep::Release(KeybdKey::HKey),
            KeyStep::Release(shift),
            KeyStep::Press(KeybdKey::IKey),
            KeyStep::Release(KeybdKey::IKey),
            KeyStep::Press(shift),
            KeyStep::Press(KeybdKey::Numrow1Key),
            KeyStep::Release(KeybdKey::Numrow1Key),
            KeyStep::Release(shift),
        ]
    );
}

#[test]
fn each_typed_character_holds_its_key_for_a_pause() {
    assert_eq!(
        KeySequence("a").steps(),
        vec![KeyStep::Press(KeybdKey::AKey), KeyStep::Pause, KeyStep::Release(KeybdKey::AKey)]
    );
}

#[test]
fn characters_without_a_key_are_skipped() {
    assert_eq!(key_events("é\n\t"), vec![]);
    assert_eq!(KeySequence("").steps(), vec![]);
    assert_eq!(key_events("é z").len(), 4);
}

#[test]
fn character_tables() {
    assert_eq!(from_keybd_key(KeybdKey::QuoteKey), Some('"'));
    assert_eq!(from_keybd_key(KeybdKey::Numpad7Key), Some('7'));
    assert_eq!(from_keybd_key(KeybdKey::Numrow7Key), Some('7'));
    assert_eq!(from_keybd_key(KeybdKey::F1Key), None);
    assert_eq!(get_keybd_key('?'), Some(KeybdKey::SlashKey));
    assert_eq!(get_keybd_key('Q'), Some(KeybdKey::QKey));
    assert_eq!(get_keybd_key(' '), Some(KeybdKey::SpaceKey));
    assert_eq!(get_keybd_key('é'), None);
}
