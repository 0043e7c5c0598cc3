//! The masked reader: a secret that grows and shrinks with the keys pressed,
//! and the terminal actions that keep the line in step with it.

use vstd::prelude::*;
use vstd::string::*;
use crate::key::{KeyEvent, BACKSPACE, ENTER, TAB};
use crate::terminal::TerminalAction;

verus! {

/// `String::push` appends the character to the end of the string.
pub assume_specification[ String::push ](s: &mut String, ch: char)
    ensures
        final(s)@ == old(s)@.push(ch),
;

/// `String::pop` takes the last character off the string and returns it; on
/// an empty string it returns `None` and leaves the string empty.
pub assume_specification[ String::pop ](s: &mut String) -> (r: Option<char>)
    ensures
        old(s)@.len() == 0 ==> r is None && final(s)@ == old(s)@,
        old(s)@.len() > 0 ==> r == Some(old(s)@.last()) && final(s)@ == old(s)@.drop_last(),
;

/// `String::clear` removes every character of the string.
pub assume_specification[ String::clear ](s: &mut String)
    ensures
        final(s)@ == Seq::<char>::empty(),
;

/// A reader as contracts see it.
pub struct ReaderView {
    /// The characters captured so far.
    pub secret: Seq<char>,
    /// Whether keystrokes show as mask glyphs.
    pub echo: bool,
    /// While a capture is open, the cursor visibility to go back to when it
    /// closes.
    pub saved_cursor: Option<bool>,
}

impl ReaderView {
    /// A reader that has read nothing: echo is on and no capture is open.
    pub open spec fn initial() -> ReaderView {
        ReaderView { secret: Seq::empty(), echo: true, saved_cursor: None }
    }

    /// Whether a capture is open.
    pub open spec fn capturing(self) -> bool {
        self.saved_cursor is Some
    }

    /// The number of characters in the secret, as a terminal action counts.
    pub open spec fn count(self) -> usize {
        self.secret.len() as usize
    }

    /// The number of mask glyphs that the line of an open capture shows.
    pub open spec fn glyphs(self) -> nat {
        if self.capturing() && self.echo {
            self.secret.len()
        } else {
            0
        }
    }

    /// The reader after a capture was asked for on a terminal whose cursor
    /// visibility is `cursor_visible`. An open capture is not opened again.
    pub open spec fn opened(self, cursor_visible: bool) -> ReaderView {
        if self.capturing() {
            self
        } else {
            ReaderView { saved_cursor: Some(cursor_visible), ..self }
        }
    }

    /// What the terminal is to do when a capture is asked for.
    pub open spec fn opening(self) -> TerminalAction {
        if self.capturing() {
            TerminalAction::Nothing
        } else {
            TerminalAction::Open { glyphs: if self.echo { self.count() } else { 0 } }
        }
    }

    /// The secret after the Backspace key: one character shorter, or still
    /// empty.
    pub open spec fn erased(self) -> Seq<char> {
        if self.secret.len() > 0 {
            self.secret.drop_last()
        } else {
            self.secret
        }
    }

    /// The reader after one key. Outside a capture no key has any effect.
    pub open spec fn step(self, key: KeyEvent) -> ReaderView {
        if !self.capturing() {
            self
        } else {
            match key {
                KeyEvent::Printable(ch) => {
                    if ch == ENTER {
                        ReaderView { saved_cursor: None, ..self }
                    } else if ch == TAB {
                        ReaderView { echo: !self.echo, ..self }
                    } else if ch == BACKSPACE {
                        ReaderView { secret: self.erased(), ..self }
                    } else {
                        ReaderView { secret: self.secret.push(ch), ..self }
                    }
                },
                _ => self,
            }
        }
    }

    /// What the terminal is to do for one key.
    pub open spec fn reaction(self, key: KeyEvent) -> TerminalAction {
        if !self.capturing() {
            TerminalAction::Nothing
        } else {
            match key {
                KeyEvent::Printable(ch) => {
                    if ch == ENTER {
                        TerminalAction::Close { cursor_visible: self.saved_cursor->0 }
                    } else if ch == TAB {
                        if self.echo {
                            TerminalAction::Erase(self.count())
                        } else {
                            TerminalAction::Show(self.count())
                        }
                    } else if ch == BACKSPACE {
                        if self.echo && self.secret.len() > 0 {
                            TerminalAction::Erase(1)
                        } else {
                            TerminalAction::Nothing
                        }
                    } else {
                        if self.echo {
                            TerminalAction::Show(1)
                        } else {
                            TerminalAction::Nothing
                        }
                    }
                },
                _ => TerminalAction::Nothing,
            }
        }
    }

    /// The reader after each of `keys` in turn, from the first to the last.
    pub open spec fn replay(self, keys: Seq<KeyEvent>) -> ReaderView
        decreases keys.len(),
    {
        if keys.len() == 0 {
            self
        } else {
            self.replay(keys.drop_last()).step(keys.last())
        }
    }

    /// What the terminal is to do for each of `keys`: for a key, the
    /// reaction of the reader that the keys before it have left.
    pub open spec fn reactions(self, keys: Seq<KeyEvent>) -> Seq<TerminalAction> {
        Seq::new(keys.len(), |i: int| self.replay(keys.take(i)).reaction(keys[i]))
    }

    /// Whether a reader that is offered `keys` takes the first `n` of them
    /// and no more: it stops behind the first Enter, and outside a capture
    /// it takes none.
    pub open spec fn takes(self, keys: Seq<KeyEvent>, n: int) -> bool {
        &&& 0 <= n <= keys.len()
        &&& !self.capturing() ==> n == 0
        &&& forall|i: int| 0 <= i < n - 1 ==> !(#[trigger] keys[i]).is_enter()
        &&& self.capturing() ==> n == keys.len() || (n > 0 && keys[n - 1].is_enter())
    }
}

/// Reads a secret from key events and says what the terminal has to show.
pub struct PasswordReader {
    pwd: String,
    echo: bool,
    saved_cursor: Option<bool>,
}

impl View for PasswordReader {
    type V = ReaderView;

    closed spec fn view(&self) -> ReaderView {
        ReaderView { secret: self.pwd@, echo: self.echo, saved_cursor: self.saved_cursor }
    }
}

/// What became of a run of key events.
pub struct Capture {
    /// How many of the events were taken.
    pub consumed: usize,
    /// What the terminal is to do, in order.
    pub actions: Vec<TerminalAction>,
}

impl PasswordReader {
    /// A reader with an empty secret and echo switched on.
    pub fn new() -> (r: Self)
        ensures
            r@ == ReaderView::initial(),
    {
        PasswordReader { pwd: String::new(), echo: true, saved_cursor: None }
    }

    /// The secret as captured so far.
    pub fn password(&self) -> (s: &str)
        ensures
            s@ == self@.secret,
    {
        self.pwd.as_str()
    }

    /// Whether keystrokes show as mask glyphs.
    pub fn echo(&self) -> (b: bool)
        ensures
            b == self@.echo,
    {
        self.echo
    }

    /// Whether a capture is open.
    pub fn is_capturing(&self) -> (b: bool)
        ensures
            b == self@.capturing(),
    {
        self.saved_cursor.is_some()
    }

    /// Empties the secret. During a capture with echo on, the glyphs on the
    /// line have to go too.
    pub fn clear(&mut self) -> (action: TerminalAction)
        ensures
            final(self)@ == (ReaderView { secret: Seq::empty(), ..old(self)@ }),
            action == if old(self)@.capturing() && old(self)@.echo {
                TerminalAction::Erase(old(self)@.count())
            } else {
                TerminalAction::Nothing
            },
    {
        let n: usize = self.pwd.as_str().unicode_len();
        self.pwd.clear();
        if self.saved_cursor.is_some() && self.echo {
            TerminalAction::Erase(n)
        } else {
            TerminalAction::Nothing
        }
    }

    /// Opens a capture on a terminal whose cursor visibility is
    /// `cursor_visible`, and keeps that setting for the end of the capture.
    pub fn begin(&mut self, cursor_visible: bool) -> (action: TerminalAction)
        ensures
            final(self)@ == old(self)@.opened(cursor_visible),
            action == old(self)@.opening(),
    {
        if self.saved_cursor.is_some() {
            TerminalAction::Nothing
        } else {
            self.saved_cursor = Some(cursor_visible);
            let glyphs: usize = if self.echo {
                self.pwd.as_str().unicode_len()
            } else {
                0
            };
            TerminalAction::Open { glyphs }
        }
    }

    /// Takes one key.
    pub fn handle_key(&mut self, key: KeyEvent) -> (action: TerminalAction)
        ensures
            final(self)@ == old(self)@.step(key),
            action == old(self)@.reaction(key),
    {
        match self.saved_cursor {
            None => TerminalAction::Nothing,
            Some(cursor_visible) => match key {
                KeyEvent::Printable(ch) => {
                    if ch == ENTER {
                        self.saved_cursor = None;
                        TerminalAction::Close { cursor_visible }
                    } else if ch == TAB {
                        self.toggle_echo()
                    } else if ch == BACKSPACE {
                        self.backspace()
                    } else {
                        self.char_entered(ch)
                    }
                },
                _ => TerminalAction::Nothing,
            },
        }
    }

    /// Takes keys until the capture closes or the keys run out.
    pub fn feed(&mut self, keys: &[KeyEvent]) -> (c: Capture)
        ensures
            old(self)@.takes(keys@, c.consumed as int),
            final(self)@ == old(self)@.replay(keys@.take(c.consumed as int)),
            c.actions@ == old(self)@.reactions(keys@.take(c.consumed as int)),
            final(self)@.capturing() <==> old(self)@.capturing() && (c.consumed == 0
                || !keys@[c.consumed - 1].is_enter()),
    {
        let mut actions: Vec<TerminalAction> = Vec::new();
        let mut i: usize = 0;
        while i < keys.len() && self.saved_cursor.is_some()
            invariant
                i <= keys@.len(),
                !old(self)@.capturing() ==> i == 0,
                forall|j: int| 0 <= j < i - 1 ==> !(#[trigger] keys@[j]).is_enter(),
                self@.capturing() <==> old(self)@.capturing() && (i == 0 || !keys@[i - 1].is_enter()),
                self@ == old(self)@.replay(keys@.take(i as int)),
                actions@ == old(self)@.reactions(keys@.take(i as int)),
            decreases keys@.len() - i,
        {
            let ghost before = keys@.take(i as int);
            let ghost after = keys@.take(i + 1);
            let action = self.handle_key(keys[i]);
            actions.push(action);
            proof {
                assert(after.drop_last() =~= before);
                assert(after.last() == keys@[i as int]);
                assert forall|j: int| 0 <= j < i implies #[trigger] after.take(j) == before.take(j) by {
                    assert(after.take(j) =~= before.take(j));
                }
                assert(after.take(i as int) =~= before);
                assert(actions@ =~= old(self)@.reactions(after));
            }
            i += 1;
        }
        Capture { consumed: i, actions }
    }

    /// Opens a capture and takes keys until Enter closes it or the keys run
    /// out. The first action opens the line; the others answer the keys.
    pub fn read_password(&mut self, cursor_visible: bool, keys: &[KeyEvent]) -> (c: Capture)
        ensures
            old(self)@.opened(cursor_visible).takes(keys@, c.consumed as int),
            final(self)@ == old(self)@.opened(cursor_visible).replay(keys@.take(c.consumed as int)),
            c.actions@ == seq![old(self)@.opening()] + old(self)@.opened(cursor_visible).reactions(
                keys@.take(c.consumed as int),
            ),
            final(self)@.capturing() <==> c.consumed == 0 || !keys@[c.consumed - 1].is_enter(),
    {
        let opening = self.begin(cursor_visible);
        let Capture { consumed, actions: answers } = self.feed(keys);
        let mut actions: Vec<TerminalAction> = Vec::new();
        actions.push(opening);
        let mut i: usize = 0;
        while i < answers.len()
            invariant
                i <= answers@.len(),
                actions@ == seq![opening] + answers@.take(i as int),
            decreases answers@.len() - i,
        {
            actions.push(answers[i]);
            proof {
                assert(actions@ =~= seq![opening] + answers@.take(i + 1));
            }
            i += 1;
        }
        proof {
            assert(answers@.take(i as int) =~= answers@);
        }
        Capture { consumed, actions }
    }

    /// Switches echo over and brings the line in step: with echo now on, one
    /// glyph for each character of the secret; with echo now off, that many
    /// glyphs erased.
    fn toggle_echo(&mut self) -> (action: TerminalAction)
        requires
            old(self)@.capturing(),
        ensures
            final(self)@ == old(self)@.step(KeyEvent::Printable(TAB)),
            action == old(self)@.reaction(KeyEvent::Printable(TAB)),
    {
        self.echo = !self.echo;
        let n: usize = self.pwd.as_str().unicode_len();
        if self.echo {
            TerminalAction::Show(n)
        } else {
            TerminalAction::Erase(n)
        }
    }

    /// Takes the last character off the secret, if it has one.
    fn backspace(&mut self) -> (action: TerminalAction)
        requires
            old(self)@.capturing(),
        ensures
            final(self)@ == old(self)@.step(KeyEvent::Printable(BACKSPACE)),
            action == old(self)@.reaction(KeyEvent::Printable(BACKSPACE)),
    {
        if self.pwd.pop().is_some() && self.echo {
            TerminalAction::Erase(1)
        } else {
            TerminalAction::Nothing
        }
    }

    /// Appends a character to the secret.
    fn char_entered(&mut self, ch: char) -> (action: TerminalAction)
        requires
            old(self)@.capturing(),
            ch != ENTER,
            ch != TAB,
            ch != BACKSPACE,
        ensures
            final(self)@ == old(self)@.step(KeyEvent::Printable(ch)),
            action == old(self)@.reaction(KeyEvent::Printable(ch)),
    {
        self.pwd.push(ch);
        if self.echo {
            TerminalAction::Show(1)
        } else {
            TerminalAction::Nothing
        }
    }
}

} // verus!
