use inputbot::{KeybdKey, MouseButton, ParseError};
use std::collections::HashSet;

#[test]
fn to_string_roundtrips() {
    let serialized_keys: Vec<String> = KeybdKey::all().iter().map(|k| k.to_string()).collect();
    let deserialized_keys: HashSet<KeybdKey> = serialized_keys
        .iter()
        .map(|k| KeybdKey::from_str(k).unwrap())
        .collect();
    for k in KeybdKey::all() {
        assert!(deserialized_keys.contains(&k));
    }

    let other_key_string = KeybdKey::OtherKey(42).to_string();
    let other_key = KeybdKey::from_str(&other_key_string).unwrap();
    assert!(other_key == KeybdKey::OtherKey(42));

    let serialized_mouse: Vec<String> = MouseButton::all().iter().map(|b| b.to_string()).collect();
    let deserialized_mouse: HashSet<MouseButton> = serialized_mouse
        .iter()
        .map(|b| MouseButton::from_str(b).unwrap())
        .collect();
    for b in MouseButton::all() {
        assert!(deserialized_mouse.contains(&b));
    }
    let other_mouse_string = MouseButton::OtherButton(42).to_string();
    let other_mouse = MouseButton::from_str(&other_mouse_string).unwrap();
    assert!(other_mouse == MouseButton::OtherButton(42));
}

#[test]
fn canonical_name_roundtrips() {
    let serialized_keys: Vec<String> = KeybdKey::all().iter().map(|k| k.canonical_name()).collect();
    let deserialized_keys: HashSet<KeybdKey> = serialized_keys
        .iter()
        .map(|k| KeybdKey::from_str(k).unwrap())
        .collect();
    for k in KeybdKey::all() {
        assert!(deserialized_keys.contains(&k));
    }

    let other_key_string = KeybdKey::OtherKey(42).canonical_name();
    let other_key = KeybdKey::from_str(&other_key_string).unwrap();
    assert!(other_key == KeybdKey::OtherKey(42));

    let serialized_mouse: Vec<String> =
        MouseButton::all().iter().map(|b| b.canonical_name()).collect();
    let deserialized_mouse: HashSet<MouseButton> = serialized_mouse
        .iter()
        .map(|b| MouseButton::from_str(b).unwrap())
        .collect();
    for b in MouseButton::all() {
        assert!(deserialized_mouse.contains(&b));
    }

    let other_mouse_string = MouseButton::OtherButton(42).canonical_name();
    let other_mouse = MouseButton::from_str(&other_mouse_string).unwrap();
    assert!(other_mouse == MouseButton::OtherButton(42));
}

#[test]
fn serialization_case_insensitive() {
    let serialized_keys: Vec<String> = KeybdKey::all().iter().map(|k| k.canonical_name()).collect();
    let serialized_keys_upper: Vec<String> =
        serialized_keys.iter().map(|k| k.to_uppercase()).collect();
    let serialized_keys_lower: Vec<String> =
        serialized_keys.iter().map(|k| k.to_lowercase()).collect();
    for serialization in vec![serialized_keys, serialized_keys_upper, serialized_keys_lower] {
        let deserialized_keys: HashSet<KeybdKey> = serialization
            .iter()
            .map(|k| KeybdKey::from_str(k).unwrap())
            .collect();
        for k in KeybdKey::all() {
            assert!(deserialized_keys.contains(&k));
        }
    }

    let serialized_mouse: Vec<String> =
        MouseButton::all().iter().map(|b| b.canonical_name()).collect();
    let serialized_mouse_upper: Vec<String> =
        serialized_mouse.iter().map(|k| k.to_uppercase()).collect();
    let serialized_mouse_lower: Vec<String> =
        serialized_mouse.iter().map(|k| k.to_uppercase()).collect();
    for serialization in vec![serialized_mouse, serialized_mouse_upper, serialized_mouse_lower] {
        let deserialized_mouse: HashSet<MouseButton> = serialization
            .iter()
            .map(|b| MouseButton::from_str(b).unwrap())
            .collect();
        for b in MouseButton::all() {
            assert!(deserialized_mouse.contains(&b));
        }
    }
}

#[test]
fn every_key_name_parses_back_in_any_case() {
    for k in KeybdKey::all() {
        let name = k.canonical_name();
        assert_eq!(KeybdKey::from_str(&name), Ok(k));
        assert_eq!(KeybdKey::from_str(&name.to_uppercase()), Ok(k));
        assert_eq!(KeybdKey::from_str(&name.to_lowercase()), Ok(k));
    }
    for b in MouseButton::all() {
        let name = b.canonical_name();
        assert_eq!(MouseButton::from_str(&name.to_lowercase()), Ok(b));
    }
    assert_eq!(KeybdKey::all().len(), 117);
    assert_eq!(MouseButton::all().len(), 7);
}

#[test]
fn canonical_names_are_exact() {
    assert_eq!(KeybdKey::AKey.canonical_name(), "a");
    assert_eq!(KeybdKey::Numrow0Key.canonical_name(), "0");
    assert_eq!(KeybdKey::LSuper.canonical_name(), "LeftSuper");
    assert_eq!(KeybdKey::RSuper.canonical_name(), "RightSuper");
    assert_eq!(KeybdKey::QuoteKey.canonical_name(), "QuoteKey");
    assert_eq!(KeybdKey::MediaPlayPauseKey.canonical_name(), "MediaPlay");
    assert_eq!(KeybdKey::OtherKey(42).canonical_name(), "OtherKey(42)");
    assert_eq!(KeybdKey::OtherKey(0).canonical_name(), "OtherKey(0)");
    assert_eq!(
        KeybdKey::OtherKey(u64::MAX).canonical_name(),
        "OtherKey(18446744073709551615)"
    );
    assert_eq!(MouseButton::X1Button.canonical_name(), "MouseBackward");
    assert_eq!(MouseButton::OtherButton(7).to_string(), "MouseButton(7)");
}

#[test]
fn other_codes_parse_at_the_edges() {
    assert_eq!(
        KeybdKey::from_str("OtherKey(18446744073709551615)"),
        Ok(KeybdKey::OtherKey(u64::MAX))
    );
    assert_eq!(KeybdKey::from_str("otherkey(007)"), Ok(KeybdKey::OtherKey(7)));
    assert_eq!(KeybdKey::from_str("OTHERKEY(5)"), Ok(KeybdKey::OtherKey(5)));
    assert_eq!(
        MouseButton::from_str("MouseButton(4294967295)"),
        Ok(MouseButton::OtherButton(u32::MAX))
    );
    assert_eq!(MouseButton::from_str("mousebutton(3)"), Ok(MouseButton::OtherButton(3)));
}

#[test]
fn names_too_large_for_the_code_are_int_errors() {
    assert_eq!(
        KeybdKey::from_str("OtherKey(18446744073709551616)"),
        Err(ParseError::ParseIntError)
    );
    assert_eq!(
        MouseButton::from_str("MouseButton(4294967296)"),
        Err(ParseError::ParseIntError)
    );
}

#[test]
fn unknown_names_are_format_errors() {
    for bad in ["", "Foo", "OtherKey()", "OtherKey(12", "OtherKey(1a)", "xOtherKey(1)"] {
        assert_eq!(
            KeybdKey::from_str(bad),
            Err(ParseError::UnknownFormat { val: bad.to_string() })
        );
    }
    assert_eq!(
        MouseButton::from_str("OtherKey(1)"),
        Err(ParseError::UnknownFormat { val: "OtherKey(1)".to_string() })
    );
    assert_eq!(
        MouseButton::from_str("Left"),
        Err(ParseError::UnknownFormat { val: "Left".to_string() })
    );
}

#[test]
fn super_key_spellings_parse() {
    assert_eq!(KeybdKey::from_str("LeftWindows"), Ok(KeybdKey::LSuper));
    assert_eq!(KeybdKey::from_str("leftcommand"), Ok(KeybdKey::LSuper));
    assert_eq!(KeybdKey::from_str("RIGHTWINDOWS"), Ok(KeybdKey::RSuper));
    assert_eq!(KeybdKey::from_str("RightCommand"), Ok(KeybdKey::RSuper));
}

#[test]
fn names_parse_through_from_str_trait() {
    let key: KeybdKey = "Backspace".parse().unwrap();
    assert_eq!(key, KeybdKey::BackspaceKey);
    let button: MouseButton = "rightclick".parse().unwrap();
    assert_eq!(button, MouseButton::RightButton);
    assert_eq!("nope".parse::<MouseButton>(), Err(ParseError::UnknownFormat { val: "nope".to_string() }));
}

#[test]
fn kelvin_sign_folds_to_k() {
    assert_eq!(KeybdKey::from_str("\u{212A}"), Ok(KeybdKey::KKey));
    assert_eq!(KeybdKey::from_str("BAC\u{212A}SPACE"), Ok(KeybdKey::BackspaceKey));
    assert_eq!(MouseButton::from_str("MouseBac\u{212A}ward"), Ok(MouseButton::X1Button));
    assert_eq!(KeybdKey::from_str("OtherKey(9)"), KeybdKey::from_str("OTHER\u{212A}EY(9)"));
}
