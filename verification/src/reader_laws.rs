//! What holds of the reader over whole runs of keys.

use vstd::prelude::*;
use crate::key::{KeyEvent, BACKSPACE, ENTER, TAB};
use crate::password_reader::ReaderView;
use crate::line::{lemma_prompt_plain, lemma_shaped_glyphs, lemma_text_renders, Line};
use crate::terminal::{render, Terminal, TerminalAction, PROMPT};

verus! {

/// Whether a key only edits the secret: a printable character other than
/// Enter and Tab. Backspace is such a key.
pub open spec fn is_editing_key(key: KeyEvent) -> bool {
    key matches KeyEvent::Printable(ch) && ch != ENTER && ch != TAB
}

/// The characters of a run of printable keys.
pub open spec fn characters(keys: Seq<KeyEvent>) -> Seq<char> {
    Seq::new(keys.len(), |i: int| keys[i]->Printable_0)
}

/// `text` after `typed` was entered behind it, character by character from
/// the first: a backspace takes away the character before it, if there is
/// one, and any other character is appended.
pub open spec fn edited(text: Seq<char>, typed: Seq<char>) -> Seq<char>
    decreases typed.len(),
{
    if typed.len() == 0 {
        text
    } else {
        let before = edited(text, typed.drop_last());
        if typed.last() != BACKSPACE {
            before.push(typed.last())
        } else if before.len() > 0 {
            before.drop_last()
        } else {
            before
        }
    }
}

/// Whether the terminal shows what the reader stands for: the glyphs of the
/// reader's line, and during a capture a visible cursor.
pub open spec fn in_step(s: ReaderView, t: Terminal) -> bool {
    &&& t.glyphs == s.glyphs()
    &&& s.capturing() ==> t.cursor_visible
}

/// Keys taken in two runs leave the reader that the same keys leave in one.
pub proof fn lemma_replay_concat(s: ReaderView, first: Seq<KeyEvent>, second: Seq<KeyEvent>)
    ensures
        s.replay(first + second) == s.replay(first).replay(second),
    decreases second.len(),
{
    if second.len() == 0 {
        assert(first + second =~= first);
    } else {
        assert((first + second).drop_last() =~= first + second.drop_last());
        assert((first + second).last() == second.last());
        lemma_replay_concat(s, first, second.drop_last());
    }
}

/// During a capture, a run of characters and backspaces leaves as the secret
/// what editing the old secret with them gives, and touches nothing else.
pub proof fn lemma_editing_keys(s: ReaderView, keys: Seq<KeyEvent>)
    requires
        s.capturing(),
        forall|i: int| 0 <= i < keys.len() ==> is_editing_key(#[trigger] keys[i]),
    ensures
        s.replay(keys) == (ReaderView { secret: edited(s.secret, characters(keys)), ..s }),
    decreases keys.len(),
{
    if keys.len() == 0 {
        assert(s.replay(keys).secret =~= edited(s.secret, characters(keys)));
    } else {
        let front = keys.drop_last();
        assert forall|i: int| 0 <= i < front.len() implies is_editing_key(#[trigger] front[i]) by {
            assert(front[i] == keys[i]);
        }
        lemma_editing_keys(s, front);
        assert(is_editing_key(keys[keys.len() - 1]));
        assert(characters(keys).drop_last() =~= characters(front));
        assert(characters(keys).last() == keys.last()->Printable_0);
    }
}

/// A backspace takes away the character typed just before it.
pub proof fn lemma_backspace_undoes(s: ReaderView, ch: char)
    requires
        s.capturing(),
        ch != ENTER,
        ch != TAB,
        ch != BACKSPACE,
    ensures
        s.step(KeyEvent::Printable(ch)).step(KeyEvent::Printable(BACKSPACE)) == s,
{
    assert(s.secret.push(ch).drop_last() =~= s.secret);
}

/// A secret never gets shorter than empty, however many backspaces come.
pub proof fn lemma_backspace_on_empty(s: ReaderView)
    requires
        s.secret.len() == 0,
    ensures
        s.step(KeyEvent::Printable(BACKSPACE)) == s,
        s.reaction(KeyEvent::Printable(BACKSPACE)) == TerminalAction::Nothing,
{
}

/// Enter closes the capture and leaves the secret as it is: pressed before
/// anything else on a fresh reader, it leaves the secret empty.
pub proof fn lemma_enter_keeps_secret(s: ReaderView)
    requires
        s.capturing(),
    ensures
        s.step(KeyEvent::Printable(ENTER)) == (ReaderView { saved_cursor: None, ..s }),
        ReaderView::initial().opened(true).step(KeyEvent::Printable(ENTER)).secret
            == Seq::<char>::empty(),
        ReaderView::initial().opened(false).step(KeyEvent::Printable(ENTER)).secret
            == Seq::<char>::empty(),
{
}

/// A key without a character, the one set aside for showing the secret
/// among them, and a poll that found no key change neither the reader nor
/// the terminal.
pub proof fn lemma_other_events_do_nothing(s: ReaderView, key: KeyEvent)
    requires
        !(key is Printable),
    ensures
        s.step(key) == s,
        s.reaction(key) == TerminalAction::Nothing,
{
}

/// Each key leaves the terminal in step with the reader: with echo on, the
/// line shows one glyph for each character of the secret, and with echo off
/// none.
pub proof fn lemma_key_keeps_in_step(s: ReaderView, t: Terminal, key: KeyEvent)
    requires
        s.secret.len() <= usize::MAX,
        in_step(s, t),
    ensures
        in_step(s.step(key), s.reaction(key).apply(t)),
        s.reaction(key) matches TerminalAction::Close { cursor_visible } ==> s.saved_cursor == Some(
            cursor_visible,
        ),
{
}

/// Opening a capture puts the terminal in step with the reader, whatever the
/// terminal showed before.
pub proof fn lemma_opening_puts_in_step(s: ReaderView, t: Terminal, cursor_visible: bool)
    requires
        s.secret.len() <= usize::MAX,
        !s.capturing(),
    ensures
        in_step(s.opened(cursor_visible), s.opening().apply(t)),
        s.opened(cursor_visible).saved_cursor == Some(cursor_visible),
{
}

/// What a key makes the terminal write does to the line what the key does
/// to the reader: the line goes on showing the prompt and the glyphs that
/// the reader stands for, and after Enter the terminal is on a fresh line.
pub proof fn lemma_key_renders(s: ReaderView, line: Line, key: KeyEvent)
    requires
        s.secret.len() <= usize::MAX,
        s.capturing(),
        line.masked(PROMPT@, s.glyphs()),
    ensures
        key.is_enter() ==> line.write(s.reaction(key).text_spec()) == Line::blank(),
        !key.is_enter() ==> line.write(s.reaction(key).text_spec()).masked(
            PROMPT@,
            s.step(key).glyphs(),
        ),
        !key.is_enter() ==> line.write(s.reaction(key).text_spec()).glyphs() == s.step(
            key,
        ).glyphs(),
{
    let t = Terminal { glyphs: s.glyphs(), cursor_visible: true };
    lemma_key_keeps_in_step(s, t, key);
    lemma_text_renders(s.reaction(key), line, t);
}

/// What the opening of a capture makes the terminal write, on a fresh line,
/// is the prompt and the glyphs that the reader stands for.
pub proof fn lemma_opening_renders(s: ReaderView, cursor_visible: bool)
    requires
        s.secret.len() <= usize::MAX,
        !s.capturing(),
    ensures
        Line::blank().write(s.opening().text_spec()).masked(
            PROMPT@,
            s.opened(cursor_visible).glyphs(),
        ),
        Line::blank().write(s.opening().text_spec()).glyphs() == s.opened(cursor_visible).glyphs(),
{
    let t = Terminal { glyphs: 0, cursor_visible };
    lemma_opening_puts_in_step(s, t, cursor_visible);
    lemma_text_renders(s.opening(), Line::blank(), t);
}

/// Switching echo over twice changes nothing: the reader is as before, and
/// the line shows as many glyphs as before, which with echo on is one for
/// each character of the secret.
pub proof fn lemma_toggle_twice(s: ReaderView, line: Line)
    requires
        s.secret.len() <= usize::MAX,
        s.capturing(),
        line.masked(PROMPT@, s.glyphs()),
    ensures
        s.step(KeyEvent::Printable(TAB)).step(KeyEvent::Printable(TAB)) == s,
        ({
            let once = s.step(KeyEvent::Printable(TAB));
            let shown = line.write(s.reaction(KeyEvent::Printable(TAB)).text_spec()).write(
                once.reaction(KeyEvent::Printable(TAB)).text_spec(),
            );
            &&& shown.masked(PROMPT@, s.glyphs())
            &&& shown.glyphs() == line.glyphs()
            &&& s.echo ==> shown.glyphs() == s.secret.len()
        }),
{
    let tab = KeyEvent::Printable(TAB);
    let once = s.step(tab);
    lemma_key_renders(s, line, tab);
    lemma_key_renders(once, line.write(s.reaction(tab).text_spec()), tab);
    lemma_prompt_plain();
    lemma_shaped_glyphs(line.cells, PROMPT@, s.glyphs());
}

/// A capture, from its opening over any keys, leaves the terminal in step
/// with the reader; and once Enter has closed it, the cursor is as visible
/// as it was when the capture was opened.
pub proof fn lemma_capture_restores_cursor(
    s: ReaderView,
    t: Terminal,
    keys: Seq<KeyEvent>,
)
    requires
        s.secret.len() + keys.len() <= usize::MAX,
        !s.capturing(),
    ensures
        ({
            let open = s.opened(t.cursor_visible);
            let end = open.replay(keys);
            let shown = render(t, seq![s.opening()] + open.reactions(keys));
            &&& in_step(end, shown)
            &&& end.capturing() ==> end.saved_cursor == Some(t.cursor_visible)
            &&& !end.capturing() ==> shown.cursor_visible == t.cursor_visible
            &&& end.secret.len() <= s.secret.len() + keys.len()
        }),
    decreases keys.len(),
{
    let open = s.opened(t.cursor_visible);
    let actions = seq![s.opening()] + open.reactions(keys);
    if keys.len() == 0 {
        assert(actions =~= seq![s.opening()]);
        assert(actions.drop_last() =~= Seq::<TerminalAction>::empty());
        assert(render(t, actions.drop_last()) == t);
        assert(actions.last() == s.opening());
    } else {
        let front = keys.drop_last();
        lemma_capture_restores_cursor(s, t, front);
        let before = open.replay(front);
        let shown = render(t, seq![s.opening()] + open.reactions(front));
        assert(keys.take(keys.len() - 1) =~= front);
        assert forall|i: int| 0 <= i < front.len() implies #[trigger] keys.take(i) == front.take(i) by {
            assert(keys.take(i) =~= front.take(i));
        }
        assert(actions.drop_last() =~= seq![s.opening()] + open.reactions(front));
        assert(actions.last() == before.reaction(keys.last()));
        lemma_key_keeps_in_step(before, shown, keys.last());
    }
}

} // verus!
