use autoclicker::keys::{is_key_match, is_trigger_modifier, next_held, trigger_target, Key, KeyEvent};

#[test]
fn trigger_names_select_left_modifiers() {
    assert_eq!(trigger_target("Alt"), Some(Key::Alt));
    assert_eq!(trigger_target("Shift"), Some(Key::ShiftLeft));
    assert_eq!(trigger_target("Ctrl"), Some(Key::ControlLeft));
}

#[test]
fn unknown_trigger_names_select_nothing() {
    assert_eq!(trigger_target(""), None);
    assert_eq!(trigger_target("alt"), None);
    assert_eq!(trigger_target("Control"), None);
    assert_eq!(trigger_target("Shift "), None);
    assert_eq!(trigger_target("Al"), None);
}

#[test]
fn shift_target_matches_both_shifts() {
    assert!(is_key_match(Key::ShiftLeft, Key::ShiftLeft));
    assert!(is_key_match(Key::ShiftRight, Key::ShiftLeft));
    assert!(!is_key_match(Key::Alt, Key::ShiftLeft));
    assert!(!is_key_match(Key::ControlLeft, Key::ShiftLeft));
}

#[test]
fn ctrl_target_matches_both_controls() {
    assert!(is_key_match(Key::ControlLeft, Key::ControlLeft));
    assert!(is_key_match(Key::ControlRight, Key::ControlLeft));
    assert!(!is_key_match(Key::ShiftRight, Key::ControlLeft));
}

#[test]
fn alt_target_matches_only_alt() {
    assert!(is_key_match(Key::Alt, Key::Alt));
    assert!(!is_key_match(Key::ShiftLeft, Key::Alt));
    assert!(!is_key_match(Key::Other, Key::Alt));
}

#[test]
fn right_side_targets_match_nothing() {
    assert!(!is_key_match(Key::ShiftRight, Key::ShiftRight));
    assert!(!is_key_match(Key::ControlRight, Key::ControlRight));
    assert!(!is_key_match(Key::Other, Key::Other));
}

#[test]
fn modifiers_are_the_named_keys() {
    assert!(is_trigger_modifier(Key::Alt));
    assert!(is_trigger_modifier(Key::ControlRight));
    assert!(!is_trigger_modifier(Key::Other));
}

#[test]
fn press_holds_and_release_lets_go() {
    let t = Some(Key::ShiftLeft);
    assert!(next_held(false, t, KeyEvent::Press(Key::ShiftRight)));
    assert!(!next_held(true, t, KeyEvent::Release(Key::ShiftLeft)));
}

#[test]
fn other_keys_leave_the_trigger_alone() {
    let t = Some(Key::Alt);
    assert!(next_held(true, t, KeyEvent::Release(Key::ShiftLeft)));
    assert!(!next_held(false, t, KeyEvent::Press(Key::Other)));
    assert!(next_held(true, None, KeyEvent::Release(Key::Alt)));
    assert!(!next_held(false, None, KeyEvent::Press(Key::Alt)));
}
