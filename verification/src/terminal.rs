//! What the reader asks of the terminal, and what the terminal then shows.

use vstd::prelude::*;
use vstd::string::*;
use crate::key::BACKSPACE;

verus! {

/// The glyph that stands for one character of the secret.
pub const MASK: char = '*';

/// The text that opens a capture.
pub const PROMPT: &'static str = "[guardianboot] Enter password: ";

/// `n` mask glyphs.
pub open spec fn mask(n: nat) -> Seq<char> {
    Seq::new(n, |i: int| MASK)
}

/// The text that takes `n` glyphs off the line again: for each glyph a
/// backspace, a space and a backspace.
pub open spec fn erasure(n: nat) -> Seq<char> {
    Seq::new(3 * n, |i: int| if i % 3 == 1 { ' ' } else { BACKSPACE })
}

/// One thing for the caller to do on the terminal.
#[derive(Clone, Copy, Debug, PartialEq, Eq)]
pub enum TerminalAction {
    /// Leave the terminal as it is.
    Nothing,
    /// Make the cursor visible, then write the prompt and `glyphs` mask
    /// glyphs behind it.
    Open { glyphs: usize },
    /// Write this many mask glyphs.
    Show(usize),
    /// Take this many mask glyphs off the line.
    Erase(usize),
    /// End the line, then set the cursor's visibility to `cursor_visible`.
    Close { cursor_visible: bool },
}

/// What of a terminal the reader is answerable for: the mask glyphs on the
/// line that it writes to, and whether the cursor is shown.
pub struct Terminal {
    pub glyphs: nat,
    pub cursor_visible: bool,
}

impl TerminalAction {
    /// The characters that carry this action out.
    pub open spec fn text_spec(self) -> Seq<char> {
        match self {
            TerminalAction::Nothing => Seq::empty(),
            TerminalAction::Open { glyphs } => PROMPT@ + mask(glyphs as nat),
            TerminalAction::Show(n) => mask(n as nat),
            TerminalAction::Erase(n) => erasure(n as nat),
            TerminalAction::Close { .. } => seq!['\n'],
        }
    }

    /// The terminal after this action.
    pub open spec fn apply(self, t: Terminal) -> Terminal {
        match self {
            TerminalAction::Nothing => t,
            TerminalAction::Open { glyphs } => Terminal { glyphs: glyphs as nat, cursor_visible: true },
            TerminalAction::Show(n) => Terminal { glyphs: t.glyphs + n as nat, ..t },
            TerminalAction::Erase(n) => Terminal {
                glyphs: if n <= t.glyphs { (t.glyphs - n) as nat } else { 0 },
                ..t
            },
            TerminalAction::Close { cursor_visible } => Terminal { glyphs: 0, cursor_visible },
        }
    }

    /// The characters to write for this action.
    pub fn text(&self) -> (s: String)
        ensures
            s@ == self.text_spec(),
    {
        match *self {
            TerminalAction::Nothing => String::new(),
            TerminalAction::Open { glyphs } => {
                let mut s = String::new();
                s.append(PROMPT);
                append_mask(&mut s, glyphs);
                s
            },
            TerminalAction::Show(n) => {
                let mut s = String::new();
                append_mask(&mut s, n);
                s
            },
            TerminalAction::Erase(n) => erasure_text(n),
            TerminalAction::Close { .. } => {
                let mut s = String::new();
                s.append("\n");
                proof {
                    reveal_strlit("\n");
                    assert(s@ =~= seq!['\n']);
                }
                s
            },
        }
    }
}

/// The terminal after each of `actions` in turn.
pub open spec fn render(t: Terminal, actions: Seq<TerminalAction>) -> Terminal
    decreases actions.len(),
{
    if actions.len() == 0 {
        t
    } else {
        actions.last().apply(render(t, actions.drop_last()))
    }
}

fn append_mask(s: &mut String, n: usize)
    ensures
        final(s)@ == old(s)@ + mask(n as nat),
{
    let mut i: usize = 0;
    while i < n
        invariant
            i <= n,
            s@ == old(s)@ + mask(i as nat),
        decreases n - i,
    {
        s.append("*");
        proof {
            reveal_strlit("*");
            assert(s@ =~= old(s)@ + mask((i + 1) as nat));
        }
        i += 1;
    }
}

fn erasure_text(n: usize) -> (s: String)
    ensures
        s@ == erasure(n as nat),
{
    let mut s = String::new();
    let mut i: usize = 0;
    while i < n
        invariant
            i <= n,
            s@ == erasure(i as nat),
        decreases n - i,
    {
        s.append("\x08 \x08");
        proof {
            reveal_strlit("\x08 \x08");
            assert(s@ =~= erasure((i + 1) as nat));
        }
        i += 1;
    }
    s
}

} // verus!
