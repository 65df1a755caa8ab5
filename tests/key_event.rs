use std::collections::hash_map::DefaultHasher;
use std::hash::{Hash, Hasher};

use term_events::event::{KeyCode, KeyEvent, KeyEventKind, KeyEventState, KeyModifiers};

fn hash_of(e: &KeyEvent) -> u64 {
    let mut hasher = DefaultHasher::new();
    e.hash(&mut hasher);
    hasher.finish()
}

#[test]
fn test_equality() {
    let lowercase_d_with_shift = KeyEvent::new(KeyCode::Char('d'), KeyModifiers::shift());
    let uppercase_d_with_shift = KeyEvent::new(KeyCode::Char('D'), KeyModifiers::shift());
    let uppercase_d = KeyEvent::new(KeyCode::Char('D'), KeyModifiers::none());
    assert_eq!(lowercase_d_with_shift, uppercase_d_with_shift);
    assert_eq!(uppercase_d, uppercase_d_with_shift);
}

#[test]
fn test_hash() {
    let lowercase_d_with_shift_hash = {
        let mut hasher = DefaultHasher::new();
        KeyEvent::new(KeyCode::Char('d'), KeyModifiers::shift()).hash(&mut hasher);
        hasher.finish()
    };
    let uppercase_d_with_shift_hash = {
        let mut hasher = DefaultHasher::new();
        KeyEvent::new(KeyCode::Char('D'), KeyModifiers::shift()).hash(&mut hasher);
        hasher.finish()
    };
    let uppercase_d_hash = {
        let mut hasher = DefaultHasher::new();
        KeyEvent::new(KeyCode::Char('D'), KeyModifiers::none()).hash(&mut hasher);
        hasher.finish()
    };
    assert_eq!(lowercase_d_with_shift_hash, uppercase_d_with_shift_hash);
    assert_eq!(uppercase_d_hash, uppercase_d_with_shift_hash);
}

#[test]
fn every_letter_with_shift_is_its_capital() {
    for c in 'a'..='z' {
        let u = c.to_ascii_uppercase();
        let lower_shift = KeyEvent::new(KeyCode::Char(c), KeyModifiers::shift());
        let upper_shift = KeyEvent::new(KeyCode::Char(u), KeyModifiers::shift());
        let upper = KeyEvent::new(KeyCode::Char(u), KeyModifiers::none());
        let lower = KeyEvent::new(KeyCode::Char(c), KeyModifiers::none());
        assert_eq!(lower_shift, upper_shift);
        assert_eq!(upper_shift, upper);
        assert_eq!(hash_of(&lower_shift), hash_of(&upper_shift));
        assert_eq!(hash_of(&upper_shift), hash_of(&upper));
        assert_ne!(lower, lower_shift);
        assert_ne!(lower, upper_shift);
        assert_ne!(lower, upper);
    }
}

#[test]
fn normalize_case_adds_shift_to_capitals() {
    let e = KeyEvent::new(KeyCode::Char('Q'), KeyModifiers::control()).normalize_case();
    assert_eq!(e.modifiers.bits(), 3);
    assert!(matches!(e.code, KeyCode::Char('Q')));
}

#[test]
fn normalize_case_capitalises_shifted_letters() {
    let e = KeyEvent::new(KeyCode::Char('q'), KeyModifiers::shift()).normalize_case();
    assert!(matches!(e.code, KeyCode::Char('Q')));
    assert_eq!(e.modifiers.bits(), 1);
}

#[test]
fn normalize_case_leaves_other_keys() {
    let e = KeyEvent::new(KeyCode::Enter, KeyModifiers::shift()).normalize_case();
    assert!(matches!(e.code, KeyCode::Enter));
    assert_eq!(e.modifiers.bits(), 1);
    let digit = KeyEvent::new(KeyCode::Char('1'), KeyModifiers::shift()).normalize_case();
    assert!(matches!(digit.code, KeyCode::Char('1')));
}

#[test]
fn different_kinds_are_different_keys() {
    let press = KeyEvent::new(KeyCode::Char('a'), KeyModifiers::none());
    let release = KeyEvent::new_with_kind(KeyCode::Char('a'), KeyModifiers::none(), KeyEventKind::Release);
    assert_ne!(press, release);
    let keypad = KeyEvent::new_with_kind_and_state(
        KeyCode::Char('a'),
        KeyModifiers::none(),
        KeyEventKind::Press,
        KeyEventState::keypad(),
    );
    assert_ne!(press, keypad);
    assert_eq!(keypad.state.bits(), 1);
}

#[test]
fn key_event_from_code_is_a_plain_press() {
    let e = KeyEvent::from(KeyCode::F(5));
    assert!(matches!(e.code, KeyCode::F(5)));
    assert_eq!(e.modifiers.bits(), 0);
    assert!(matches!(e.kind, KeyEventKind::Press));
    assert_eq!(e.state.bits(), 0);
    assert_eq!(e, KeyEvent::new(KeyCode::F(5), KeyModifiers::empty()));
}

#[test]
fn modifier_sets_combine() {
    let m = KeyModifiers::shift().union(KeyModifiers::alt());
    assert_eq!(m.bits(), 5);
    assert!(m.contains(KeyModifiers::shift()));
    assert!(!m.contains(KeyModifiers::control()));
    let mut n = KeyModifiers::none();
    n.insert(KeyModifiers::meta());
    n.insert(KeyModifiers::super_key());
    assert_eq!(n.bits(), 40);
    assert_eq!(KeyModifiers::hyper().bits(), 16);
}
