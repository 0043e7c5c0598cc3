//! What the text of an action does to the line that it is written to.
//!
//! A line is a row of cells and a cursor. A character written to it lands in
//! the cell under the cursor and moves the cursor on; a backspace moves the
//! cursor back and leaves the cells alone; a line feed goes on to a fresh
//! line. On that footing the text of each action is shown to do what the
//! action stands for.

use vstd::prelude::*;
use crate::key::BACKSPACE;
use crate::terminal::{erasure, mask, Terminal, TerminalAction, MASK, PROMPT};

verus! {

/// A line of the terminal.
pub struct Line {
    /// The characters on the line, from the left.
    pub cells: Seq<char>,
    /// The place of the cell under the cursor.
    pub cursor: nat,
}

/// The number of cells that hold a mask glyph.
pub open spec fn count_glyphs(cells: Seq<char>) -> nat
    decreases cells.len(),
{
    if cells.len() == 0 {
        0
    } else if cells.last() == MASK {
        count_glyphs(cells.drop_last()) + 1
    } else {
        count_glyphs(cells.drop_last())
    }
}

/// Whether `cells` hold `lead`, then `glyphs` mask glyphs, then blanks.
pub open spec fn shaped(cells: Seq<char>, lead: Seq<char>, glyphs: nat) -> bool {
    &&& cells.len() >= lead.len() + glyphs
    &&& forall|i: int| 0 <= i < lead.len() ==> cells[i] == lead[i]
    &&& forall|i: int| lead.len() <= i < lead.len() + glyphs ==> cells[i] == MASK
    &&& forall|i: int| lead.len() + glyphs <= i < cells.len() ==> cells[i] == ' '
}

/// Whether a text is made of characters that each fill one cell and are no
/// mask glyphs.
pub open spec fn plain(text: Seq<char>) -> bool {
    forall|i: int|
        0 <= i < text.len() ==> text[i] != MASK && text[i] != BACKSPACE && text[i] != '\n'
}

impl Line {
    /// A fresh line.
    pub open spec fn blank() -> Line {
        Line { cells: Seq::empty(), cursor: 0 }
    }

    /// The line after one character was written.
    pub open spec fn put(self, ch: char) -> Line {
        if ch == '\n' {
            Line::blank()
        } else if ch == BACKSPACE {
            Line { cursor: if self.cursor > 0 { (self.cursor - 1) as nat } else { 0 }, ..self }
        } else if self.cursor < self.cells.len() {
            Line { cells: self.cells.update(self.cursor as int, ch), cursor: self.cursor + 1 }
        } else {
            Line { cells: self.cells.push(ch), cursor: self.cells.len() + 1 }
        }
    }

    /// The line after a text was written, character by character.
    pub open spec fn write(self, text: Seq<char>) -> Line
        decreases text.len(),
    {
        if text.len() == 0 {
            self
        } else {
            self.write(text.drop_last()).put(text.last())
        }
    }

    /// The number of mask glyphs on the line.
    pub open spec fn glyphs(self) -> nat {
        count_glyphs(self.cells)
    }

    /// Whether the line shows `lead` and `glyphs` mask glyphs behind it,
    /// with the cursor behind the last glyph and nothing but blanks from
    /// there on.
    pub open spec fn masked(self, lead: Seq<char>, glyphs: nat) -> bool {
        &&& self.cursor == lead.len() + glyphs
        &&& shaped(self.cells, lead, glyphs)
    }
}

/// A text written in two parts leaves the line that the whole text leaves.
pub proof fn lemma_write_concat(line: Line, first: Seq<char>, second: Seq<char>)
    ensures
        line.write(first + second) == line.write(first).write(second),
    decreases second.len(),
{
    if second.len() == 0 {
        assert(first + second =~= first);
    } else {
        assert((first + second).drop_last() =~= first + second.drop_last());
        assert((first + second).last() == second.last());
        lemma_write_concat(line, first, second.drop_last());
    }
}

/// One more character at the end of a text is written last.
pub proof fn lemma_write_push(line: Line, text: Seq<char>, ch: char)
    ensures
        line.write(text.push(ch)) == line.write(text).put(ch),
{
    assert(text.push(ch).drop_last() =~= text);
    assert(text.push(ch).last() == ch);
}

/// A line of the shape lead, glyphs, blanks has as many mask glyphs as the
/// shape says, where the lead holds none.
pub proof fn lemma_shaped_glyphs(cells: Seq<char>, lead: Seq<char>, glyphs: nat)
    requires
        shaped(cells, lead, glyphs),
        plain(lead),
    ensures
        count_glyphs(cells) == glyphs,
    decreases cells.len(),
{
    if cells.len() > 0 {
        let front = cells.drop_last();
        if cells.len() > lead.len() + glyphs {
            lemma_shaped_glyphs(front, lead, glyphs);
        } else if glyphs > 0 {
            lemma_shaped_glyphs(front, lead, (glyphs - 1) as nat);
        } else {
            let shorter = lead.drop_last();
            assert(cells.last() == lead.last());
            lemma_shaped_glyphs(front, shorter, 0);
        }
    }
}

/// Plain text written at the end of a line goes behind what the line holds.
pub proof fn lemma_write_plain(line: Line, text: Seq<char>)
    requires
        line.cursor == line.cells.len(),
        plain(text),
    ensures
        line.write(text) == (Line { cells: line.cells + text, cursor: line.cells.len() + text.len() }),
    decreases text.len(),
{
    if text.len() == 0 {
        assert(line.cells + text =~= line.cells);
    } else {
        let front = text.drop_last();
        lemma_write_plain(line, front);
        assert(text.last() == text[text.len() - 1]);
        assert((line.cells + front).push(text.last()) =~= line.cells + text);
    }
}

/// Mask glyphs written behind the glyphs of a line add to them.
pub proof fn lemma_write_mask(line: Line, lead: Seq<char>, glyphs: nat, n: nat)
    requires
        line.masked(lead, glyphs),
    ensures
        line.write(mask(n)).masked(lead, glyphs + n),
    decreases n,
{
    if n > 0 {
        let fewer = (n - 1) as nat;
        assert(mask(n).drop_last() =~= mask(fewer));
        assert(mask(n).last() == MASK);
        lemma_write_mask(line, lead, glyphs, fewer);
    }
}

/// The text that erases `n` glyphs takes the last `n` glyphs off a line that
/// shows at least as many, and leaves blanks in their place.
pub proof fn lemma_write_erasure(line: Line, lead: Seq<char>, glyphs: nat, n: nat)
    requires
        line.masked(lead, glyphs),
        n <= glyphs,
    ensures
        line.write(erasure(n)).masked(lead, (glyphs - n) as nat),
    decreases n,
{
    if n > 0 {
        let fewer = (n - 1) as nat;
        let one = seq![BACKSPACE, ' ', BACKSPACE];
        assert(erasure(n) =~= erasure(fewer) + one);
        lemma_write_concat(line, erasure(fewer), one);
        lemma_write_erasure(line, lead, glyphs, fewer);
        let before = line.write(erasure(fewer));
        let none = Seq::<char>::empty();
        assert(before.write(none) == before);
        lemma_write_push(before, none, BACKSPACE);
        lemma_write_push(before, none.push(BACKSPACE), ' ');
        lemma_write_push(before, none.push(BACKSPACE).push(' '), BACKSPACE);
        assert(one =~= none.push(BACKSPACE).push(' ').push(BACKSPACE));
        assert(before.write(one) == before.put(BACKSPACE).put(' ').put(BACKSPACE));
    }
}

/// The text of an action does to the line what the action stands for: on a
/// line that shows the prompt and as many glyphs as the terminal is held to
/// show, it leaves the prompt and the glyphs that the terminal is held to
/// show after the action. Opening starts from a fresh line, and closing
/// leaves one.
pub proof fn lemma_text_renders(action: TerminalAction, line: Line, t: Terminal)
    requires
        action is Open ==> line == Line::blank(),
        !(action is Open) ==> line.masked(PROMPT@, t.glyphs),
        action matches TerminalAction::Erase(n) ==> n <= t.glyphs,
    ensures
        action is Close ==> line.write(action.text_spec()) == Line::blank(),
        !(action is Close) ==> line.write(action.text_spec()).masked(
            PROMPT@,
            action.apply(t).glyphs,
        ),
        !(action is Close) ==> line.write(action.text_spec()).glyphs() == action.apply(t).glyphs,
{
    lemma_prompt_plain();
    let after = line.write(action.text_spec());
    match action {
        TerminalAction::Nothing => {},
        TerminalAction::Open { glyphs } => {
            lemma_write_concat(line, PROMPT@, mask(glyphs as nat));
            lemma_write_plain(line, PROMPT@);
            let prompted = line.write(PROMPT@);
            assert(prompted.cells =~= PROMPT@);
            assert(prompted.masked(PROMPT@, 0));
            lemma_write_mask(prompted, PROMPT@, 0, glyphs as nat);
        },
        TerminalAction::Show(n) => {
            lemma_write_mask(line, PROMPT@, t.glyphs, n as nat);
        },
        TerminalAction::Erase(n) => {
            lemma_write_erasure(line, PROMPT@, t.glyphs, n as nat);
        },
        TerminalAction::Close { .. } => {
            let text = seq!['\n'];
            assert(text.drop_last() =~= Seq::<char>::empty());
            assert(text.last() == '\n');
        },
    }
    if !(action is Close) {
        lemma_shaped_glyphs(after.cells, PROMPT@, action.apply(t).glyphs);
    }
}

/// The prompt holds no mask glyph and no character that moves the cursor
/// back or ends the line.
pub proof fn lemma_prompt_plain()
    ensures
        plain(PROMPT@),
{
    reveal_strlit("[guardianboot] Enter password: ");
}

} // verus!
