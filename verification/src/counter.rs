//! The counter model: four independently addressable 16-bit counters, each
//! with a dirty (unsaved-changes) flag, selected through `CounterSelection`.

use vstd::prelude::*;

use crate::digits::{digits_of, Digits};
use crate::input::Input;

verus! {

/// Which of the four counters is currently active for display and editing.
#[derive(Clone, Copy, Debug, PartialEq, Eq, Structural)]
pub enum CounterSelection {
    A,
    B,
    C,
    D,
}

impl Default for CounterSelection {
    /// The device boots with counter A selected.
    fn default() -> (r: Self)
        ensures
            r == CounterSelection::A,
    {
        CounterSelection::A
    }
}

/// The counter a selector symbol picks, if the symbol is a selector.
pub open spec fn spec_selection_of(input: Input) -> Option<CounterSelection> {
    match input {
        Input::A => Some(CounterSelection::A),
        Input::B => Some(CounterSelection::B),
        Input::C => Some(CounterSelection::C),
        Input::D => Some(CounterSelection::D),
        _ => None,
    }
}

impl CounterSelection {
    /// The counter a selector symbol picks, if the symbol is a selector.
    pub fn from_input(input: &Input) -> (r: Option<CounterSelection>)
        ensures
            r == spec_selection_of(*input),
    {
        match input {
            Input::A => Some(CounterSelection::A),
            Input::B => Some(CounterSelection::B),
            Input::C => Some(CounterSelection::C),
            Input::D => Some(CounterSelection::D),
            _ => None,
        }
    }

    /// The identifying letter shown at the bottom-right of the display.
    pub open spec fn spec_char(self) -> char {
        match self {
            CounterSelection::A => 'A',
            CounterSelection::B => 'B',
            CounterSelection::C => 'C',
            CounterSelection::D => 'D',
        }
    }

    /// The identifying letter shown at the bottom-right of the display.
    pub fn to_char(&self) -> (r: char)
        ensures
            r == self.spec_char(),
    {
        match self {
            CounterSelection::A => 'A',
            CounterSelection::B => 'B',
            CounterSelection::C => 'C',
            CounterSelection::D => 'D',
        }
    }
}

/// A single tally counter: a 16-bit value that wraps on overflow and
/// underflow, and a dirty flag recording unsaved mutations.
#[derive(Clone, Copy, Debug, PartialEq, Eq, Structural)]
pub struct Counter {
    pub val: u16,
    pub dirty: bool,
}

impl Default for Counter {
    fn default() -> (r: Self)
        ensures
            r == (Counter { val: 0, dirty: false }),
    {
        Counter { val: 0, dirty: false }
    }
}

impl Counter {
    /// The counter after one increment: the value one higher, wrapping 65535
    /// back to 0, and the dirty flag set.
    pub open spec fn spec_inc(self) -> Counter {
        Counter {
            val: if self.val == 0xffff {
                0u16
            } else {
                (self.val + 1) as u16
            },
            dirty: true,
        }
    }

    /// The counter after one decrement: the value one lower, wrapping 0 back
    /// to 65535, and the dirty flag set.
    pub open spec fn spec_dec(self) -> Counter {
        Counter {
            val: if self.val == 0 {
                0xffffu16
            } else {
                (self.val - 1) as u16
            },
            dirty: true,
        }
    }

    /// A counter freshly loaded from storage: the given value, no unsaved
    /// changes.
    pub fn new(val: u16) -> (r: Counter)
        ensures
            r == (Counter { val, dirty: false }),
    {
        Counter { val, dirty: false }
    }

    pub fn is_dirty(&self) -> (r: bool)
        ensures
            r == self.dirty,
    {
        self.dirty
    }

    /// Marks the counter as persisted; the value is untouched.
    pub fn clean(&mut self)
        ensures
            *final(self) == (Counter { val: old(self).val, dirty: false }),
    {
        self.dirty = false;
    }

    pub fn val(&self) -> (r: u16)
        ensures
            r == self.val,
    {
        self.val
    }

    /// Adds one, wrapping 65535 back to 0, and marks the counter dirty.
    pub fn inc(&mut self)
        ensures
            *final(self) == old(self).spec_inc(),
    {
        self.val = self.val.wrapping_add(1);
        self.dirty = true;
    }

    /// Subtracts one, wrapping 0 back to 65535, and marks the counter dirty.
    pub fn dec(&mut self)
        ensures
            *final(self) == old(self).spec_dec(),
    {
        self.val = self.val.wrapping_sub(1);
        self.dirty = true;
    }

    /// Overwrites the value; the counter is dirty afterwards even if the
    /// value did not change.
    pub fn set(&mut self, val: u16)
        ensures
            *final(self) == (Counter { val, dirty: true }),
    {
        self.val = val;
        self.dirty = true;
    }

    /// Sets the value to 0 and marks the counter dirty, whatever the prior
    /// state was.
    pub fn reset(&mut self)
        ensures
            *final(self) == (Counter { val: 0, dirty: true }),
    {
        self.val = 0;
        self.dirty = true;
    }

    /// The five decimal digits of the value, most-significant first, for
    /// rendering.
    pub fn to_digits(&self) -> (r: Digits)
        ensures
            r@ == digits_of(self.val),
            r.wf(),
    {
        Digits::from_u16(self.val)
    }
}

/// The counter reached from `start` by a sequence of tally keys: `true` for
/// an increment, `false` for a decrement, applied left to right.
pub open spec fn run_tallies(start: Counter, ops: Seq<bool>) -> Counter
    decreases ops.len(),
{
    if ops.len() == 0 {
        start
    } else {
        let prev = run_tallies(start, ops.drop_last());
        if ops.last() {
            prev.spec_inc()
        } else {
            prev.spec_dec()
        }
    }
}

/// For every sequence of increments and decrements, from any starting
/// counter, the value stays within the 16-bit range: boundary crossings wrap
/// instead of failing.
pub proof fn lemma_tallies_bounded(start: Counter, ops: Seq<bool>)
    ensures
        0 <= run_tallies(start, ops).val <= 0xffff,
{
}

/// The full counter set: four named counters, fixed for the device lifetime.
#[derive(Clone, Copy, Debug, PartialEq, Eq, Structural)]
pub struct Counters {
    pub a: Counter,
    pub b: Counter,
    pub c: Counter,
    pub d: Counter,
}

impl Default for Counters {
    fn default() -> (r: Self)
        ensures
            r.a == (Counter { val: 0, dirty: false }),
            r.b == (Counter { val: 0, dirty: false }),
            r.c == (Counter { val: 0, dirty: false }),
            r.d == (Counter { val: 0, dirty: false }),
    {
        Counters {
            a: Counter { val: 0, dirty: false },
            b: Counter { val: 0, dirty: false },
            c: Counter { val: 0, dirty: false },
            d: Counter { val: 0, dirty: false },
        }
    }
}

impl Counters {
    /// The counter a selection refers to, as a spec-level projection.
    pub open spec fn spec_get(self, selection: CounterSelection) -> Counter {
        match selection {
            CounterSelection::A => self.a,
            CounterSelection::B => self.b,
            CounterSelection::C => self.c,
            CounterSelection::D => self.d,
        }
    }

    /// The counter set with one counter replaced, as a spec-level update.
    pub open spec fn spec_update(self, selection: CounterSelection, counter: Counter) -> Counters {
        match selection {
            CounterSelection::A => Counters { a: counter, ..self },
            CounterSelection::B => Counters { b: counter, ..self },
            CounterSelection::C => Counters { c: counter, ..self },
            CounterSelection::D => Counters { d: counter, ..self },
        }
    }

    pub fn get(&self, selection: CounterSelection) -> (r: &Counter)
        ensures
            *r == self.spec_get(selection),
    {
        match selection {
            CounterSelection::A => &self.a,
            CounterSelection::B => &self.b,
            CounterSelection::C => &self.c,
            CounterSelection::D => &self.d,
        }
    }

    pub fn get_mut(&mut self, selection: CounterSelection) -> (r: &mut Counter)
        ensures
            *r == old(self).spec_get(selection),
            *final(self) == old(self).spec_update(selection, *final(r)),
    {
        match selection {
            CounterSelection::A => &mut self.a,
            CounterSelection::B => &mut self.b,
            CounterSelection::C => &mut self.c,
            CounterSelection::D => &mut self.d,
        }
    }
}

} // verus!
