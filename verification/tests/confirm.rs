use guardianboot::confirm::await_enter;
use guardianboot::key::{KeyEvent, BACKSPACE, ENTER, TAB};

#[test]
fn confirmation_ignores_other_keys_until_enter() {
    let keys = [KeyEvent::Printable('x'), KeyEvent::Printable('\r')];
    assert_eq!(await_enter(&keys), Some(2));
    assert_eq!(await_enter(&keys[..1]), None);
}

#[test]
fn confirmation_returns_at_the_first_enter() {
    let keys = [
        KeyEvent::Nothing,
        KeyEvent::Special(0x17),
        KeyEvent::Printable('\n'),
        KeyEvent::Printable(' '),
        KeyEvent::Printable('\r'),
        KeyEvent::Printable('y'),
        KeyEvent::Printable('\r'),
    ];
    assert_eq!(await_enter(&keys), Some(5));
    assert_eq!(await_enter(&keys[5..]), Some(2));
}

#[test]
fn enter_as_the_first_key_confirms_at_once() {
    assert_eq!(await_enter(&[KeyEvent::Printable('\r')]), Some(1));
}

#[test]
fn without_enter_the_wait_does_not_end() {
    assert_eq!(await_enter(&[]), None);
    assert_eq!(await_enter(&[KeyEvent::Printable('a'), KeyEvent::Special(13), KeyEvent::Nothing]), None);
}

#[test]
fn a_special_key_with_the_code_of_enter_is_no_enter() {
    assert!(!KeyEvent::Special(13).pressed_enter());
    assert!(!KeyEvent::Nothing.pressed_enter());
    assert!(!KeyEvent::Printable('\n').pressed_enter());
    assert!(KeyEvent::Printable('\r').pressed_enter());
}

#[test]
fn the_three_editing_characters() {
    assert_eq!(ENTER, '\r');
    assert_eq!(TAB, '\t');
    assert_eq!(BACKSPACE, '\u{8}');
}
