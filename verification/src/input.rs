//! Input acquisition: the keypad symbol alphabet, the decoding of raw matrix
//! coordinates and serial bytes into symbols, and the edge-triggered
//! debouncer that turns per-scan readings into a stream of key events.

use vstd::prelude::*;

verus! {

/// One decoded keypad symbol: a digit, the two control keys, or one of the
/// four counter selector keys.
#[derive(Clone, Copy, Debug, PartialEq, Eq, Structural)]
pub enum Input {
    Num0,
    Num1,
    Num2,
    Num3,
    Num4,
    Num5,
    Num6,
    Num7,
    Num8,
    Num9,
    Star,
    Hash,
    A,
    B,
    C,
    D,
}

/// The symbol wired at a given row and column of the 4x4 keypad matrix.
pub open spec fn spec_matrix_symbol(row: int, col: int) -> Input
    recommends
        0 <= row < 4,
        0 <= col < 4,
{
    if row == 2 && col == 3 {
        Input::Num1
    } else if row == 2 && col == 2 {
        Input::Num4
    } else if row == 2 && col == 1 {
        Input::Num7
    } else if row == 2 && col == 0 {
        Input::Star
    } else if row == 3 && col == 3 {
        Input::Num2
    } else if row == 3 && col == 2 {
        Input::Num5
    } else if row == 3 && col == 1 {
        Input::Num8
    } else if row == 3 && col == 0 {
        Input::Num0
    } else if row == 1 && col == 3 {
        Input::Num3
    } else if row == 1 && col == 2 {
        Input::Num6
    } else if row == 1 && col == 1 {
        Input::Num9
    } else if row == 1 && col == 0 {
        Input::Hash
    } else if row == 0 && col == 3 {
        Input::A
    } else if row == 0 && col == 2 {
        Input::B
    } else if row == 0 && col == 1 {
        Input::C
    } else {
        Input::D
    }
}

/// The symbol a serial byte decodes to: ASCII digits, `*`, `#`, and the
/// letters `a`..`d`; anything else decodes to nothing.
pub open spec fn spec_serial_symbol(byte: u8) -> Option<Input> {
    match byte {
        48u8 => Some(Input::Num0),
        49u8 => Some(Input::Num1),
        50u8 => Some(Input::Num2),
        51u8 => Some(Input::Num3),
        52u8 => Some(Input::Num4),
        53u8 => Some(Input::Num5),
        54u8 => Some(Input::Num6),
        55u8 => Some(Input::Num7),
        56u8 => Some(Input::Num8),
        57u8 => Some(Input::Num9),
        42u8 => Some(Input::Star),
        35u8 => Some(Input::Hash),
        97u8 => Some(Input::A),
        98u8 => Some(Input::B),
        99u8 => Some(Input::C),
        100u8 => Some(Input::D),
        _ => None,
    }
}

/// The digit a symbol stands for, if it is a digit key.
pub open spec fn spec_digit_of(input: Input) -> Option<u8> {
    match input {
        Input::Num0 => Some(0u8),
        Input::Num1 => Some(1u8),
        Input::Num2 => Some(2u8),
        Input::Num3 => Some(3u8),
        Input::Num4 => Some(4u8),
        Input::Num5 => Some(5u8),
        Input::Num6 => Some(6u8),
        Input::Num7 => Some(7u8),
        Input::Num8 => Some(8u8),
        Input::Num9 => Some(9u8),
        _ => None,
    }
}

impl Input {
    /// Decodes the pressed key at matrix position (`row`, `col`). The raw
    /// electrical scan that finds the position is the caller's concern; this
    /// is the fixed keypad layout alone.
    pub fn from_matrix(row: usize, col: usize) -> (r: Input)
        requires
            row < 4,
            col < 4,
        ensures
            r == spec_matrix_symbol(row as int, col as int),
    {
        match (row, col) {
            (2, 3) => Input::Num1,
            (2, 2) => Input::Num4,
            (2, 1) => Input::Num7,
            (2, 0) => Input::Star,
            (3, 3) => Input::Num2,
            (3, 2) => Input::Num5,
            (3, 1) => Input::Num8,
            (3, 0) => Input::Num0,
            (1, 3) => Input::Num3,
            (1, 2) => Input::Num6,
            (1, 1) => Input::Num9,
            (1, 0) => Input::Hash,
            (0, 3) => Input::A,
            (0, 2) => Input::B,
            (0, 1) => Input::C,
            _ => Input::D,
        }
    }

    /// Decodes a serial byte into a symbol, for driving the device over a
    /// byte stream instead of the keypad.
    pub fn from_serial(byte: u8) -> (r: Option<Input>)
        ensures
            r == spec_serial_symbol(byte),
    {
        match byte {
            48 => Some(Input::Num0),
            49 => Some(Input::Num1),
            50 => Some(Input::Num2),
            51 => Some(Input::Num3),
            52 => Some(Input::Num4),
            53 => Some(Input::Num5),
            54 => Some(Input::Num6),
            55 => Some(Input::Num7),
            56 => Some(Input::Num8),
            57 => Some(Input::Num9),
            42 => Some(Input::Star),
            35 => Some(Input::Hash),
            97 => Some(Input::A),
            98 => Some(Input::B),
            99 => Some(Input::C),
            100 => Some(Input::D),
            _ => None,
        }
    }

    /// The digit this symbol stands for, if any.
    pub fn to_digit(&self) -> (r: Option<u8>)
        ensures
            r == spec_digit_of(*self),
    {
        match self {
            Input::Num0 => Some(0),
            Input::Num1 => Some(1),
            Input::Num2 => Some(2),
            Input::Num3 => Some(3),
            Input::Num4 => Some(4),
            Input::Num5 => Some(5),
            Input::Num6 => Some(6),
            Input::Num7 => Some(7),
            Input::Num8 => Some(8),
            Input::Num9 => Some(9),
            _ => None,
        }
    }
}

/// What an edge-triggered debouncer emits for a reading: the reading itself
/// when it differs from the previous one, nothing while it is held steady.
pub open spec fn spec_debounce(last: Option<Input>, reading: Option<Input>) -> Option<Input> {
    if reading == last {
        None
    } else {
        reading
    }
}

/// Edge-triggered debouncer: emits a symbol only on the scan where the
/// reading changes, so a held key fires once and a release re-arms it.
#[derive(Clone, Copy, Debug, PartialEq, Eq, Structural)]
pub struct Debouncer {
    pub last_input: Option<Input>,
}

impl Debouncer {
    /// A fresh debouncer that has seen no reading yet.
    pub fn new() -> (r: Debouncer)
        ensures
            r == (Debouncer { last_input: None }),
    {
        Debouncer { last_input: None }
    }

    /// Feeds one raw per-scan reading; returns the symbol to act on, if the
    /// reading is an edge.
    pub fn debounce(&mut self, input: Option<Input>) -> (r: Option<Input>)
        ensures
            r == spec_debounce(old(self).last_input, input),
            final(self).last_input == input,
    {
        if input != self.last_input {
            self.last_input = input;
            input
        } else {
            None
        }
    }
}

/// Edge-triggering of the debouncer, for every symbol: a symbol read twice
/// in a row is emitted on the first scan and suppressed on the second, and
/// after a release (an empty reading) the same symbol is emitted again.
pub proof fn lemma_debounce_edges(start: Debouncer, sym: Input)
    ensures
        ({
            let first = spec_debounce(start.last_input, Some(sym));
            start.last_input != Some(sym) ==> first == Some(sym)
        }),
        spec_debounce(Some(sym), Some(sym)) == None::<Input>,
        spec_debounce(Some(sym), None) == None::<Input>,
        spec_debounce(None, Some(sym)) == Some(sym),
{
}

} // verus!
