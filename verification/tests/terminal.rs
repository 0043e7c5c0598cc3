use guardianboot::terminal::{TerminalAction, MASK, PROMPT};

#[test]
fn nothing_has_no_text() {
    assert_eq!(TerminalAction::Nothing.text(), "");
}

#[test]
fn show_writes_one_glyph_for_each() {
    assert_eq!(TerminalAction::Show(0).text(), "");
    assert_eq!(TerminalAction::Show(1).text(), "*");
    assert_eq!(TerminalAction::Show(5).text(), "*****");
    assert_eq!(MASK, '*');
}

#[test]
fn erase_writes_backspace_space_backspace_for_each() {
    assert_eq!(TerminalAction::Erase(0).text(), "");
    assert_eq!(TerminalAction::Erase(1).text(), "\x08 \x08");
    assert_eq!(TerminalAction::Erase(3).text(), "\x08 \x08\x08 \x08\x08 \x08");
    assert_eq!(TerminalAction::Erase(40).text().chars().count(), 120);
}

#[test]
fn open_writes_the_prompt_and_the_glyphs() {
    assert_eq!(PROMPT, "[guardianboot] Enter password: ");
    assert_eq!(TerminalAction::Open { glyphs: 0 }.text(), "[guardianboot] Enter password: ");
    assert_eq!(TerminalAction::Open { glyphs: 2 }.text(), "[guardianboot] Enter password: **");
}

#[test]
fn close_ends_the_line() {
    assert_eq!(TerminalAction::Close { cursor_visible: true }.text(), "\n");
    assert_eq!(TerminalAction::Close { cursor_visible: false }.text(), "\n");
}
