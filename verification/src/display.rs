//! The display renderer: a pure function from the device state to the
//! sequence of positioned character writes that paints a two-line,
//! 16-column character display. The second line starts at a fixed address
//! offset from the first; driving the operations over the display bus is
//! the caller's concern.

use vstd::prelude::*;

use crate::digits::{chars_of, digits_of};
use crate::state::{Mode, State, StateView};

verus! {

/// Visible columns per line.
pub const SCREEN_WIDTH: u8 = 16;

/// Address offset at which the second line begins.
pub const LINE_WIDTH: u8 = 64;

/// Address of the last visible cell of the second line, where the selected
/// counter's letter goes.
pub const BOTTOM_RIGHT: u8 = LINE_WIDTH + SCREEN_WIDTH - 1;

/// Column where the counter value (or the editor buffer) is written.
pub const COUNTER_START: u8 = 6;

/// Address of the selected-counter letter.
pub const SELECTED_COUNTER: u8 = BOTTOM_RIGHT;

/// Address of the "Saved" indicator, shown while the selected counter has
/// no unsaved changes.
pub const DIRTY_STATE: u8 = LINE_WIDTH;

/// One positioned write toward the display: clear it, return the cursor
/// home, move the cursor to a linear address, put a glyph, or skip one cell
/// to the right.
#[derive(Clone, Copy, Debug, PartialEq, Eq, Structural)]
pub enum DisplayOp {
    Clear,
    Reset,
    SetCursor(u8),
    Put(char),
    ShiftRight,
}

/// The write for one digit position in counting mode: a suppressed leading
/// zero becomes a cursor skip, a digit becomes its glyph.
pub open spec fn glyph_op_of(c: Option<char>) -> DisplayOp {
    match c {
        Some(g) => DisplayOp::Put(g),
        None => DisplayOp::ShiftRight,
    }
}

/// The writes for a digit run in counting mode.
pub open spec fn glyph_ops(cs: Seq<Option<char>>) -> Seq<DisplayOp> {
    Seq::new(cs.len(), |i: int| glyph_op_of(cs[i]))
}

/// The write for one position of the editor buffer: every position shows a
/// digit, so padding blanks are written as explicit zeros.
pub open spec fn padded_glyph_op_of(c: Option<char>) -> DisplayOp {
    match c {
        Some(g) => DisplayOp::Put(g),
        None => DisplayOp::Put('0'),
    }
}

/// The writes for the editor buffer.
pub open spec fn padded_glyph_ops(cs: Seq<Option<char>>) -> Seq<DisplayOp> {
    Seq::new(cs.len(), |i: int| padded_glyph_op_of(cs[i]))
}

/// The glyphs of the reset confirmation prompt, first line.
pub open spec fn confirm_prompt_ops() -> Seq<DisplayOp> {
    seq![
        DisplayOp::Put('C'),
        DisplayOp::Put('l'),
        DisplayOp::Put('e'),
        DisplayOp::Put('a'),
        DisplayOp::Put('r'),
        DisplayOp::Put(' '),
        DisplayOp::Put('c'),
        DisplayOp::Put('o'),
        DisplayOp::Put('u'),
        DisplayOp::Put('n'),
        DisplayOp::Put('t'),
        DisplayOp::Put('e'),
        DisplayOp::Put('r'),
        DisplayOp::Put('?'),
    ]
}

/// The glyphs of the reset confirmation legend, second line.
pub open spec fn confirm_legend_ops() -> Seq<DisplayOp> {
    seq![
        DisplayOp::Put('*'),
        DisplayOp::Put(':'),
        DisplayOp::Put(' '),
        DisplayOp::Put('N'),
        DisplayOp::Put('o'),
        DisplayOp::Put(' '),
        DisplayOp::Put(' '),
        DisplayOp::Put('#'),
        DisplayOp::Put(':'),
        DisplayOp::Put(' '),
        DisplayOp::Put('Y'),
        DisplayOp::Put('e'),
        DisplayOp::Put('s'),
    ]
}

/// The glyphs of the "Saved" indicator.
pub open spec fn saved_text_ops() -> Seq<DisplayOp> {
    seq![
        DisplayOp::Put('S'),
        DisplayOp::Put('a'),
        DisplayOp::Put('v'),
        DisplayOp::Put('e'),
        DisplayOp::Put('d'),
    ]
}

/// The mode-specific part of a render: the counter value, the editor buffer
/// with its cursor marker, or the reset confirmation prompt.
pub open spec fn mode_ops(s: StateView) -> Seq<DisplayOp> {
    match s.mode {
        Mode::Normal => seq![DisplayOp::SetCursor(COUNTER_START)] + glyph_ops(
            chars_of(digits_of(s.selected_counter().val)),
        ),
        Mode::Input => match s.editor {
            Some(e) => seq![DisplayOp::SetCursor(COUNTER_START)] + padded_glyph_ops(
                chars_of(e.digits),
            ) + seq![
                DisplayOp::SetCursor((LINE_WIDTH + COUNTER_START + e.cursor) as u8),
                DisplayOp::Put('^'),
            ],
            None => Seq::empty(),
        },
        Mode::ConfirmReset => confirm_prompt_ops() + seq![DisplayOp::SetCursor(LINE_WIDTH)]
            + confirm_legend_ops(),
    }
}

/// The saved indicator, drawn only while the selected counter is clean; a
/// dirty counter leaves the position as the mode content left it.
pub open spec fn saved_ops(s: StateView) -> Seq<DisplayOp> {
    if !s.selected_counter().dirty {
        seq![DisplayOp::SetCursor(DIRTY_STATE)] + saved_text_ops()
    } else {
        Seq::empty()
    }
}

/// Everything one render writes: clear and reset first, then the mode
/// content, then the saved indicator if due, and the selected counter's
/// letter at the bottom right last.
pub open spec fn render_ops(s: StateView) -> Seq<DisplayOp> {
    seq![DisplayOp::Clear, DisplayOp::Reset] + mode_ops(s) + saved_ops(s) + seq![
        DisplayOp::SetCursor(SELECTED_COUNTER),
        DisplayOp::Put(s.selected.spec_char()),
    ]
}

/// Wraps a glyph into a display write.
fn put_op(c: char) -> (r: DisplayOp)
    ensures
        r == DisplayOp::Put(c),
{
    DisplayOp::Put(c)
}

/// Turns a digit run into display writes, blanks becoming cursor skips.
fn glyph_writes(chars: &Vec<Option<char>>) -> (r: Vec<DisplayOp>)
    ensures
        r@ == glyph_ops(chars@),
{
    let mut ops: Vec<DisplayOp> = Vec::new();
    let mut i: usize = 0;
    while i < chars.len()
        invariant
            i <= chars@.len(),
            ops@.len() == i,
            forall|j: int| 0 <= j < i ==> ops@[j] == glyph_ops(chars@)[j],
        decreases chars@.len() - i,
    {
        let glyph: Option<char> = chars[i];
        let op = if glyph.is_some() {
            put_op(glyph.unwrap())
        } else {
            DisplayOp::ShiftRight
        };
        proof {
            assert(glyph_ops(chars@)[i as int] == op);
        }
        ops.push(op);
        i = i + 1;
    }
    proof {
        assert(ops@ =~= glyph_ops(chars@));
    }
    ops
}

/// Turns the editor buffer into display writes, blanks becoming explicit
/// zeros.
fn padded_glyph_writes(chars: &Vec<Option<char>>) -> (r: Vec<DisplayOp>)
    ensures
        r@ == padded_glyph_ops(chars@),
{
    let mut ops: Vec<DisplayOp> = Vec::new();
    let mut i: usize = 0;
    while i < chars.len()
        invariant
            i <= chars@.len(),
            ops@.len() == i,
            forall|j: int| 0 <= j < i ==> ops@[j] == padded_glyph_ops(chars@)[j],
        decreases chars@.len() - i,
    {
        let glyph: Option<char> = chars[i];
        let op = if glyph.is_some() {
            put_op(glyph.unwrap())
        } else {
            DisplayOp::Put('0')
        };
        proof {
            assert(padded_glyph_ops(chars@)[i as int] == op);
        }
        ops.push(op);
        i = i + 1;
    }
    proof {
        assert(ops@ =~= padded_glyph_ops(chars@));
    }
    ops
}

impl State {
    /// Renders the state into the full sequence of display writes for one
    /// repaint.
    pub fn render(&self) -> (r: Vec<DisplayOp>)
        requires
            self@.wf(),
        ensures
            r@ == render_ops(self@),
    {
        let mut ops: Vec<DisplayOp> = Vec::new();
        ops.push(DisplayOp::Clear);
        ops.push(DisplayOp::Reset);
        match self.mode {
            Mode::Normal => {
                ops.push(DisplayOp::SetCursor(COUNTER_START));
                let chars = self.get_counter().to_digits().to_chars();
                let mut seg = glyph_writes(&chars);
                ops.append(&mut seg);
                proof {
                    assert(ops@ =~= seq![DisplayOp::Clear, DisplayOp::Reset] + mode_ops(self@));
                }
            },
            Mode::Input => {
                match &self.digits_input {
                    Some(digits_input) => {
                        ops.push(DisplayOp::SetCursor(COUNTER_START));
                        let chars = digits_input.buf.to_chars();
                        let mut seg = padded_glyph_writes(&chars);
                        ops.append(&mut seg);
                        ops.push(
                            DisplayOp::SetCursor(
                                LINE_WIDTH + COUNTER_START + (digits_input.index as u8),
                            ),
                        );
                        ops.push(DisplayOp::Put('^'));
                        proof {
                            assert(ops@ =~= seq![DisplayOp::Clear, DisplayOp::Reset] + mode_ops(
                                self@,
                            ));
                        }
                    },
                    None => {},
                }
            },
            Mode::ConfirmReset => {
                ops.push(DisplayOp::Put('C'));
                ops.push(DisplayOp::Put('l'));
                ops.push(DisplayOp::Put('e'));
                ops.push(DisplayOp::Put('a'));
                ops.push(DisplayOp::Put('r'));
                ops.push(DisplayOp::Put(' '));
                ops.push(DisplayOp::Put('c'));
                ops.push(DisplayOp::Put('o'));
                ops.push(DisplayOp::Put('u'));
                ops.push(DisplayOp::Put('n'));
                ops.push(DisplayOp::Put('t'));
                ops.push(DisplayOp::Put('e'));
                ops.push(DisplayOp::Put('r'));
                ops.push(DisplayOp::Put('?'));
                ops.push(DisplayOp::SetCursor(LINE_WIDTH));
                ops.push(DisplayOp::Put('*'));
                ops.push(DisplayOp::Put(':'));
                ops.push(DisplayOp::Put(' '));
                ops.push(DisplayOp::Put('N'));
                ops.push(DisplayOp::Put('o'));
                ops.push(DisplayOp::Put(' '));
                ops.push(DisplayOp::Put(' '));
                ops.push(DisplayOp::Put('#'));
                ops.push(DisplayOp::Put(':'));
                ops.push(DisplayOp::Put(' '));
                ops.push(DisplayOp::Put('Y'));
                ops.push(DisplayOp::Put('e'));
                ops.push(DisplayOp::Put('s'));
                proof {
                    assert(ops@ =~= seq![DisplayOp::Clear, DisplayOp::Reset] + mode_ops(self@));
                }
            },
        }
        if !self.get_counter().is_dirty() {
            ops.push(DisplayOp::SetCursor(DIRTY_STATE));
            ops.push(DisplayOp::Put('S'));
            ops.push(DisplayOp::Put('a'));
            ops.push(DisplayOp::Put('v'));
            ops.push(DisplayOp::Put('e'));
            ops.push(DisplayOp::Put('d'));
        }
        proof {
            assert(ops@ =~= seq![DisplayOp::Clear, DisplayOp::Reset] + mode_ops(self@) + saved_ops(
                self@,
            ));
        }
        ops.push(DisplayOp::SetCursor(SELECTED_COUNTER));
        ops.push(DisplayOp::Put(self.selected_counter.to_char()));
        proof {
            assert(ops@ =~= render_ops(self@));
        }
        ops
    }
}

} // verus!
