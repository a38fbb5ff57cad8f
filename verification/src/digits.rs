//! The digit editor: a fixed-width buffer of five decimal digits,
//! most-significant first, with a wrap-around cursor, positional entry, and
//! round-trip to a 16-bit value.

use vstd::prelude::*;

verus! {

/// Number of digit positions in the buffer: enough for any 16-bit value.
pub const BUF_LEN: usize = 5;

/// The five decimal digits of `val`, most-significant first, zero-padded.
pub open spec fn digits_of(val: u16) -> Seq<u8> {
    seq![
        ((val / 10000) % 10) as u8,
        ((val / 1000) % 10) as u8,
        ((val / 100) % 10) as u8,
        ((val / 10) % 10) as u8,
        (val % 10) as u8,
    ]
}

/// The numeric value a five-digit buffer denotes, as an unbounded integer.
pub open spec fn value_of(ds: Seq<u8>) -> int
    recommends
        ds.len() == 5,
{
    ds[0] * 10000 + ds[1] * 1000 + ds[2] * 100 + ds[3] * 10 + ds[4]
}

/// Saturating conversion of a digit-buffer value to the 16-bit range.
pub open spec fn clamped_u16(v: int) -> int {
    if v > 0xffff {
        0xffff
    } else {
        v
    }
}

/// The display glyph for a single decimal digit.
pub open spec fn spec_digit_char(d: u8) -> char {
    match d {
        0u8 => '0',
        1u8 => '1',
        2u8 => '2',
        3u8 => '3',
        4u8 => '4',
        5u8 => '5',
        6u8 => '6',
        7u8 => '7',
        8u8 => '8',
        9u8 => '9',
        _ => '?',
    }
}

/// True when every digit of `ds` up to and including position `i` is zero.
pub open spec fn prefix_zero(ds: Seq<u8>, i: int) -> bool {
    forall|j: int| 0 <= j <= i ==> ds[j] == 0
}

/// The glyphs of a digit buffer with leading zeros suppressed: a position is
/// blank (`None`) when it holds a zero that only pads the front, except that
/// the final position always shows its digit.
pub open spec fn chars_of(ds: Seq<u8>) -> Seq<Option<char>>
    recommends
        ds.len() == 5,
{
    Seq::new(5, |i: int| if i < 4 && prefix_zero(ds, i) {
        None
    } else {
        Some(spec_digit_char(ds[i]))
    })
}

/// A buffer of five decimal digits, most-significant first.
#[derive(Clone, Debug)]
pub struct Digits(pub Vec<u8>);

impl View for Digits {
    type V = Seq<u8>;

    open spec fn view(&self) -> Seq<u8> {
        self.0@
    }
}

impl Digits {
    /// Well-formed buffers hold exactly five digits, each in 0..=9.
    pub open spec fn wf(self) -> bool {
        &&& self@.len() == 5
        &&& forall|i: int| 0 <= i < 5 ==> self@[i] <= 9
    }

    /// Decomposes a 16-bit value into its five decimal digits.
    pub fn from_u16(val: u16) -> (r: Digits)
        ensures
            r@ == digits_of(val),
            r.wf(),
    {
        let mut buf: Vec<u8> = Vec::new();
        buf.push(((val / 10000) % 10) as u8);
        buf.push(((val / 1000) % 10) as u8);
        buf.push(((val / 100) % 10) as u8);
        buf.push(((val / 10) % 10) as u8);
        buf.push((val % 10) as u8);
        proof {
            assert(buf@ =~= digits_of(val));
        }
        Digits(buf)
    }

    /// Recomposes the digits into a 16-bit value, saturating at 65535 instead
    /// of wrapping if the buffer denotes a larger number.
    pub fn to_u16(&self) -> (r: u16)
        requires
            self.wf(),
        ensures
            r == clamped_u16(value_of(self@)),
    {
        let sum: u32 = (self.0[0] as u32) * 10000 + (self.0[1] as u32) * 1000
            + (self.0[2] as u32) * 100 + (self.0[3] as u32) * 10 + (self.0[4] as u32);
        if sum > 0xffff {
            0xffff
        } else {
            sum as u16
        }
    }

    /// The buffer's glyphs with leading zeros suppressed; blank positions are
    /// `None`. At least the final digit is always shown.
    pub fn to_chars(&self) -> (r: Vec<Option<char>>)
        requires
            self.wf(),
        ensures
            r@ == chars_of(self@),
    {
        let mut leading = true;
        let mut chars: Vec<Option<char>> = Vec::new();
        let mut i: usize = 0;
        while i < BUF_LEN
            invariant
                self.wf(),
                0 <= i <= 5,
                chars@.len() == i,
                i < 5 ==> (leading <==> prefix_zero(self@, i - 1)),
                forall|j: int| 0 <= j < i ==> chars@[j] == chars_of(self@)[j],
            decreases 5 - i,
        {
            let d = self.0[i];
            if i < BUF_LEN - 1 && leading && d == 0 {
                chars.push(None);
            } else {
                leading = false;
                chars.push(Some(digit_char(d)));
            }
            i = i + 1;
        }
        proof {
            assert(chars@ =~= chars_of(self@));
        }
        chars
    }
}

/// The display glyph for a single decimal digit.
pub fn digit_char(d: u8) -> (r: char)
    ensures
        r == spec_digit_char(d),
{
    match d {
        0 => '0',
        1 => '1',
        2 => '2',
        3 => '3',
        4 => '4',
        5 => '5',
        6 => '6',
        7 => '7',
        8 => '8',
        9 => '9',
        _ => '?',
    }
}

/// For every 16-bit value, decomposing into digits and recomposing yields the
/// value back: the digit editor's round trip is exact.
pub proof fn lemma_digits_roundtrip(val: u16)
    ensures
        value_of(digits_of(val)) == val,
        clamped_u16(value_of(digits_of(val))) == val,
{
    let v = val as int;
    vstd::arithmetic::div_mod::lemma_fundamental_div_mod(v, 10);
    vstd::arithmetic::div_mod::lemma_fundamental_div_mod(v / 10, 10);
    vstd::arithmetic::div_mod::lemma_fundamental_div_mod(v / 100, 10);
    vstd::arithmetic::div_mod::lemma_fundamental_div_mod(v / 1000, 10);
    vstd::arithmetic::div_mod::lemma_fundamental_div_mod(v / 10000, 10);
    vstd::arithmetic::div_mod::lemma_fundamental_div_mod(v, 10000);
    vstd::arithmetic::div_mod::lemma_div_denominator(v, 10, 10);
    vstd::arithmetic::div_mod::lemma_div_denominator(v, 100, 10);
    vstd::arithmetic::div_mod::lemma_div_denominator(v, 1000, 10);
    vstd::arithmetic::div_mod::lemma_mod_bound(v, 10);
    vstd::arithmetic::div_mod::lemma_mod_bound(v / 10, 10);
    vstd::arithmetic::div_mod::lemma_mod_bound(v / 100, 10);
    vstd::arithmetic::div_mod::lemma_mod_bound(v / 1000, 10);
    vstd::arithmetic::div_mod::lemma_mod_bound(v / 10000, 10);
    vstd::arithmetic::div_mod::lemma_mod_bound(v, 10000);
}

/// The spec-level abstraction of a digit editor: the digits typed so far and
/// the cursor position.
#[verifier::ext_equal]
pub struct EditorView {
    pub digits: Seq<u8>,
    pub cursor: int,
}

impl EditorView {
    pub open spec fn wf(self) -> bool {
        &&& self.digits.len() == 5
        &&& (forall|i: int| 0 <= i < 5 ==> self.digits[i] <= 9)
        &&& 0 <= self.cursor < 5
    }

    /// The editor freshly seeded from a counter value.
    pub open spec fn seeded(val: u16) -> EditorView {
        EditorView { digits: digits_of(val), cursor: 0 }
    }

    /// The editor after the cursor moves one position left, wrapping from
    /// the first position to the last.
    pub open spec fn cursor_left(self) -> EditorView {
        EditorView {
            cursor: if self.cursor == 0 {
                4int
            } else {
                self.cursor - 1
            },
            ..self
        }
    }

    /// The editor after the cursor moves one position right, wrapping from
    /// the last position to the first.
    pub open spec fn cursor_right(self) -> EditorView {
        EditorView { cursor: (self.cursor + 1) % 5, ..self }
    }

    /// The editor after one digit is typed: unchanged when the digit is
    /// rejected at the most-significant position, otherwise overwritten at
    /// the cursor with the cursor advanced.
    pub open spec fn entered(self, digit: u8) -> EditorView {
        if self.cursor == 0 && digit > 6 {
            self
        } else {
            EditorView { digits: self.digits.update(self.cursor, digit), cursor: (self.cursor + 1) % 5 }
        }
    }

    /// The value the typed digits denote, saturated to the 16-bit range.
    pub open spec fn value(self) -> int {
        clamped_u16(value_of(self.digits))
    }
}

/// The digit editor: the buffer being typed plus the cursor position.
#[derive(Clone, Debug)]
pub struct DigitsInput {
    pub buf: Digits,
    pub index: usize,
}

impl View for DigitsInput {
    type V = EditorView;

    open spec fn view(&self) -> EditorView {
        EditorView { digits: self.buf@, cursor: self.index as int }
    }
}

impl DigitsInput {
    pub open spec fn wf(self) -> bool {
        self@.wf()
    }

    /// A fresh editor seeded from `val`: its five digits, cursor on the
    /// most-significant position.
    pub fn new(val: u16) -> (r: Self)
        ensures
            r@ == EditorView::seeded(val),
            r.wf(),
    {
        DigitsInput { buf: Digits::from_u16(val), index: 0 }
    }

    /// Moves the cursor one position left, wrapping from the first position
    /// to the last.
    pub fn move_cursor_left(&mut self)
        requires
            old(self).wf(),
        ensures
            final(self).wf(),
            final(self)@ == old(self)@.cursor_left(),
    {
        if self.index == 0 {
            self.index = BUF_LEN;
        }
        self.index = self.index - 1;
    }

    /// Moves the cursor one position right, wrapping from the last position
    /// to the first.
    pub fn move_cursor_right(&mut self)
        requires
            old(self).wf(),
        ensures
            final(self).wf(),
            final(self)@ == old(self)@.cursor_right(),
    {
        self.index = (self.index + 1) % BUF_LEN;
    }

    /// Types one digit. At the most-significant position digits above 6 are
    /// rejected (the top digit of a 16-bit value cannot exceed 6), leaving
    /// the editor unchanged; otherwise the digit overwrites the cursor
    /// position and the cursor auto-advances, wrapping to the front.
    pub fn add_digit(&mut self, digit: u8)
        requires
            old(self).wf(),
            digit <= 9,
        ensures
            final(self).wf(),
            final(self)@ == old(self)@.entered(digit),
    {
        if self.index == 0 && digit > 6 {
            // Out of bounds for the top digit: leave the buffer as it is.
        } else {
            self.buf.0[self.index] = digit;
            self.index = (self.index + 1) % BUF_LEN;
        }
    }

    /// The value the typed digits denote, saturating at 65535.
    pub fn parse(&self) -> (r: u16)
        requires
            self.wf(),
        ensures
            r == self@.value(),
    {
        self.buf.to_u16()
    }
}

} // verus!
