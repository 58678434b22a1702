use input_linux::Key;
use wayclick_input::event::{RawEvent, EV_KEY, EV_SYN, KEY_PRESSED, KEY_RELEASED};
use wayclick_input::keyboard::{common_keys, eq_ignore_ascii_case, keyboard_device, press, release, Keycode};

#[test]
fn key_names_round_trip() {
    let k = Keycode::from_name("w").unwrap();
    assert_eq!(k.name(), Some("W"));
    assert_eq!(Keycode::from_name("Space").unwrap().name(), Some("Space"));
    assert!(Keycode::from_name("nope").is_none());
}

#[test]
fn common_keys_are_unique_names() {
    let keys = common_keys();
    for (i, (n, _)) in keys.iter().enumerate() {
        assert!(
            !keys[i + 1..].iter().any(|(m, _)| m.eq_ignore_ascii_case(n)),
            "duplicate key name {n}"
        );
    }
}

#[test]
fn every_key_round_trips_in_any_case() {
    for (n, k) in common_keys() {
        assert_eq!(Keycode::from_name(n), Some(k));
        assert_eq!(Keycode::from_name(&n.to_lowercase()), Some(k));
        assert_eq!(Keycode::from_name(&n.to_uppercase()), Some(k));
        assert_eq!(k.name(), Some(n));
    }
}

#[test]
fn key_codes_match_linux_input() {
    let expected: Vec<(&str, Key)> = vec![
        ("A", Key::A), ("B", Key::B), ("C", Key::C), ("D", Key::D), ("E", Key::E), ("F", Key::F),
        ("G", Key::G), ("H", Key::H), ("I", Key::I), ("J", Key::J), ("K", Key::K), ("L", Key::L),
        ("M", Key::M), ("N", Key::N), ("O", Key::O), ("P", Key::P), ("Q", Key::Q), ("R", Key::R),
        ("S", Key::S), ("T", Key::T), ("U", Key::U), ("V", Key::V), ("W", Key::W), ("X", Key::X),
        ("Y", Key::Y), ("Z", Key::Z),
        ("0", Key::Num0), ("1", Key::Num1), ("2", Key::Num2), ("3", Key::Num3), ("4", Key::Num4),
        ("5", Key::Num5), ("6", Key::Num6), ("7", Key::Num7), ("8", Key::Num8), ("9", Key::Num9),
        ("Space", Key::Space), ("Enter", Key::Enter), ("Tab", Key::Tab), ("Esc", Key::Esc),
        ("Backspace", Key::Backspace), ("CapsLock", Key::CapsLock),
        ("LeftShift", Key::LeftShift), ("RightShift", Key::RightShift),
        ("LeftCtrl", Key::LeftCtrl), ("RightCtrl", Key::RightCtrl),
        ("LeftAlt", Key::LeftAlt), ("RightAlt", Key::RightAlt),
        ("LeftMeta", Key::LeftMeta), ("RightMeta", Key::RightMeta),
        ("Up", Key::Up), ("Down", Key::Down), ("Left", Key::Left), ("Right", Key::Right),
        ("F1", Key::F1), ("F2", Key::F2), ("F3", Key::F3), ("F4", Key::F4), ("F5", Key::F5),
        ("F6", Key::F6), ("F7", Key::F7), ("F8", Key::F8), ("F9", Key::F9), ("F10", Key::F10),
        ("F11", Key::F11), ("F12", Key::F12),
    ];
    let keys = common_keys();
    assert_eq!(keys.len(), expected.len());
    for ((n, k), (en, ek)) in keys.iter().zip(expected.iter()) {
        assert_eq!(n, en);
        assert_eq!(k.code(), *ek as u16, "code of {n}");
    }
}

#[test]
fn ascii_case_comparison() {
    assert!(eq_ignore_ascii_case("LeftShift", "leftshift"));
    assert!(eq_ignore_ascii_case("", ""));
    assert!(!eq_ignore_ascii_case("F1", "F11"));
    assert!(!eq_ignore_ascii_case("é", "É"));
    assert!(eq_ignore_ascii_case("é", "é"));
}

#[test]
fn key_press_and_release_events() {
    let w = Keycode::from_name("W").unwrap();
    assert_eq!(w.code(), 17);
    assert_eq!(
        press(w),
        vec![RawEvent { kind: EV_KEY, code: 17, value: KEY_PRESSED }, RawEvent { kind: EV_SYN, code: 0, value: 0 }]
    );
    assert_eq!(
        release(w),
        vec![RawEvent { kind: EV_KEY, code: 17, value: KEY_RELEASED }, RawEvent { kind: EV_SYN, code: 0, value: 0 }]
    );
}

#[test]
fn keyboard_declares_every_key() {
    let d = keyboard_device();
    let keys = common_keys();
    assert_eq!(d.keys.len(), keys.len());
    assert_eq!(d.keys[0], 30);
    assert_eq!(d.event_kinds, vec![EV_KEY, EV_SYN]);
    assert!(d.rel_axes.is_empty());
    assert_eq!(d.name, "wayclick-virtual-keyboard");
    assert_eq!((d.vendor, d.product), (0x3232, 0x567b));
}
