//! The mode state machine: the aggregate device state, the three modes, and
//! the transition taken for every keypad symbol in every mode, including the
//! save transition that persists the counter set.

use vstd::prelude::*;

use crate::counter::{spec_selection_of, Counter, CounterSelection, Counters};
use crate::digits::{DigitsInput, EditorView};
use crate::eeprom::{cleaned, counters_bytes, Storable, Storage};
use crate::input::{spec_digit_of, Input};

verus! {

/// The storage address where the counter set is persisted.
pub const STATE_STORAGE_ADDRESS: u16 = 1337;

/// The device mode: counting, typing a new value, or confirming a reset.
#[derive(Clone, Copy, Debug, PartialEq, Eq, Structural)]
pub enum Mode {
    Normal,
    Input,
    ConfirmReset,
}

impl Default for Mode {
    fn default() -> (r: Self)
        ensures
            r == Mode::Normal,
    {
        Mode::Normal
    }
}

/// The spec-level abstraction of the whole device state.
#[verifier::ext_equal]
pub struct StateView {
    pub mode: Mode,
    pub counters: Counters,
    pub selected: CounterSelection,
    pub editor: Option<EditorView>,
}

impl StateView {
    /// The editor exists exactly while the device is in input mode, and is
    /// then well formed.
    pub open spec fn wf(self) -> bool {
        &&& (self.mode is Input <==> self.editor is Some)
        &&& (self.editor matches Some(e) ==> e.wf())
    }

    /// The counter the current selection refers to.
    pub open spec fn selected_counter(self) -> Counter {
        self.counters.spec_get(self.selected)
    }

    /// The state at first boot, before anything is loaded: everything
    /// zeroed, counting mode, counter A selected.
    pub open spec fn initial() -> StateView {
        StateView {
            mode: Mode::Normal,
            counters: Counters {
                a: Counter { val: 0, dirty: false },
                b: Counter { val: 0, dirty: false },
                c: Counter { val: 0, dirty: false },
                d: Counter { val: 0, dirty: false },
            },
            selected: CounterSelection::A,
            editor: None,
        }
    }
}

/// The state after switching to `mode`: entering input mode seeds a fresh
/// editor from the selected counter, returning to normal mode discards the
/// editor, and entering the reset confirmation touches nothing else.
pub open spec fn mode_changed(s: StateView, mode: Mode) -> StateView {
    match mode {
        Mode::Normal => StateView { mode, editor: None, ..s },
        Mode::Input => StateView {
            mode,
            editor: Some(EditorView::seeded(s.selected_counter().val)),
            ..s
        },
        Mode::ConfirmReset => StateView { mode, ..s },
    }
}

/// Whether a symbol triggers persistence: only the save key, and only in
/// normal mode.
pub open spec fn save_requested(s: StateView, input: Input) -> bool {
    s.mode is Normal && input is Num5
}

/// The transition taken in normal mode.
pub open spec fn step_normal(s: StateView, input: Input) -> StateView {
    if input is Num0 {
        mode_changed(s, Mode::ConfirmReset)
    } else if input is Num5 {
        StateView { counters: cleaned(s.counters), ..s }
    } else if input is Star {
        StateView { counters: s.counters.spec_update(s.selected, s.selected_counter().spec_dec()), ..s }
    } else if input is Hash {
        StateView { counters: s.counters.spec_update(s.selected, s.selected_counter().spec_inc()), ..s }
    } else {
        match spec_selection_of(input) {
            Some(sel) => if sel == s.selected {
                mode_changed(s, Mode::Input)
            } else {
                StateView { selected: sel, ..s }
            },
            None => s,
        }
    }
}

/// The transition taken in input mode.
pub open spec fn step_input(s: StateView, input: Input) -> StateView {
    match s.editor {
        None => s,
        Some(e) => if input is Star {
            StateView { editor: Some(e.cursor_left()), ..s }
        } else if input is Hash {
            StateView { editor: Some(e.cursor_right()), ..s }
        } else {
            match spec_digit_of(input) {
                Some(d) => StateView { editor: Some(e.entered(d)), ..s },
                None => match spec_selection_of(input) {
                    Some(sel) => if sel == s.selected {
                        mode_changed(
                            StateView {
                                counters: s.counters.spec_update(
                                    s.selected,
                                    Counter { val: e.value() as u16, dirty: true },
                                ),
                                ..s
                            },
                            Mode::Normal,
                        )
                    } else {
                        mode_changed(s, Mode::Normal)
                    },
                    None => s,
                },
            }
        },
    }
}

/// The transition taken while a reset awaits confirmation.
pub open spec fn step_confirm(s: StateView, input: Input) -> StateView {
    if input is Star {
        mode_changed(s, Mode::Normal)
    } else if input is Hash {
        mode_changed(
            StateView {
                counters: s.counters.spec_update(s.selected, Counter { val: 0, dirty: true }),
                ..s
            },
            Mode::Normal,
        )
    } else {
        s
    }
}

/// The full transition relation of the device: what one keypad symbol does
/// to the state in each mode. Every symbol has a defined (possibly no-op)
/// effect in every mode.
pub open spec fn step(s: StateView, input: Input) -> StateView {
    match s.mode {
        Mode::Normal => step_normal(s, input),
        Mode::Input => step_input(s, input),
        Mode::ConfirmReset => step_confirm(s, input),
    }
}

/// A counter set agrees with the persisted one wherever a counter claims to
/// have no unsaved changes.
pub open spec fn synced(cs: Counters, stored: Counters) -> bool {
    &&& (!cs.a.dirty ==> cs.a.val == stored.a.val)
    &&& (!cs.b.dirty ==> cs.b.val == stored.b.val)
    &&& (!cs.c.dirty ==> cs.c.val == stored.c.val)
    &&& (!cs.d.dirty ==> cs.d.val == stored.d.val)
}

/// Dirty tracking is sound: whenever a counter is clean, its value equals
/// the last value persisted for it. Every transition either leaves the
/// stored set alone and dirties what it changes, or persists the whole set
/// and cleans it, so the agreement survives every keypad symbol.
pub proof fn lemma_step_preserves_sync(s: StateView, input: Input, stored: Counters)
    requires
        s.wf(),
        synced(s.counters, stored),
    ensures
        synced(
            step(s, input).counters,
            if save_requested(s, input) {
                s.counters
            } else {
                stored
            },
        ),
{
}

/// The aggregate device state: the single instance lives for the device
/// lifetime and is mutated synchronously by every input event.
#[derive(Clone, Debug)]
pub struct State {
    pub mode: Mode,
    pub counters: Counters,
    pub selected_counter: CounterSelection,
    pub digits_input: Option<DigitsInput>,
}

impl View for State {
    type V = StateView;

    open spec fn view(&self) -> StateView {
        StateView {
            mode: self.mode,
            counters: self.counters,
            selected: self.selected_counter,
            editor: match self.digits_input {
                Some(d) => Some(d@),
                None => None,
            },
        }
    }
}

impl Default for State {
    fn default() -> (r: Self)
        ensures
            r@ == StateView::initial(),
            r@.wf(),
    {
        State::new()
    }
}

impl State {
    /// The boot state before loading: zeroed counters, normal mode,
    /// counter A selected.
    pub fn new() -> (r: State)
        ensures
            r@ == StateView::initial(),
            r@.wf(),
    {
        State {
            mode: Mode::Normal,
            counters: Counters {
                a: Counter { val: 0, dirty: false },
                b: Counter { val: 0, dirty: false },
                c: Counter { val: 0, dirty: false },
                d: Counter { val: 0, dirty: false },
            },
            selected_counter: CounterSelection::A,
            digits_input: None,
        }
    }

    /// Switches mode, seeding or discarding the digit editor as the target
    /// mode demands.
    pub fn change_mode(&mut self, mode: Mode)
        requires
            old(self)@.wf(),
        ensures
            final(self)@ == mode_changed(old(self)@, mode),
    {
        match mode {
            Mode::Input => {
                let counter_val = self.get_counter().val();
                self.digits_input = Some(DigitsInput::new(counter_val));
            },
            Mode::Normal => {
                self.digits_input = None;
            },
            Mode::ConfirmReset => {},
        }
        self.mode = mode;
    }

    /// The currently selected counter.
    pub fn get_counter(&self) -> (r: &Counter)
        ensures
            *r == self@.selected_counter(),
    {
        self.counters.get(self.selected_counter)
    }

    /// The currently selected counter, for mutation in place.
    pub fn get_counter_mut(&mut self) -> (r: &mut Counter)
        ensures
            *r == old(self)@.selected_counter(),
            final(self)@ == (StateView {
                counters: old(self)@.counters.spec_update(old(self)@.selected, *final(r)),
                ..old(self)@
            }),
    {
        self.counters.get_mut(self.selected_counter)
    }

    /// Consumes one debounced keypad symbol: mutates the state as `step`
    /// says, and, exactly on the save transition, persists the counter set
    /// to `storage` at `addr` (leaving every other address untouched).
    pub fn handle_input<S: Storage>(&mut self, input: Input, storage: &mut S, addr: u16)
        requires
            old(self)@.wf(),
            old(storage).wf(),
            addr + 8 <= 0x10000,
        ensures
            final(self)@.wf(),
            final(self)@ == step(old(self)@, input),
            final(storage).wf(),
            forall|a: u16|
                final(storage).byte_at(a) == (if save_requested(old(self)@, input) && addr <= a
                    < addr + 8 {
                    counters_bytes(old(self)@.counters)[a - addr]
                } else {
                    old(storage).byte_at(a)
                }),
    {
        match self.mode {
            Mode::Normal => match input {
                Input::Num0 => {
                    self.change_mode(Mode::ConfirmReset);
                },
                Input::Num5 => {
                    self.counters.store(storage, addr);
                    self.counters.a.clean();
                    self.counters.b.clean();
                    self.counters.c.clean();
                    self.counters.d.clean();
                },
                Input::Star => {
                    self.get_counter_mut().dec();
                },
                Input::Hash => {
                    self.get_counter_mut().inc();
                },
                Input::A | Input::B | Input::C | Input::D => {
                    let counter = CounterSelection::from_input(&input).unwrap();
                    if self.selected_counter == counter {
                        self.change_mode(Mode::Input);
                    } else {
                        self.selected_counter = counter;
                    }
                },
                _ => {},
            },
            Mode::Input => {
                match &mut self.digits_input {
                    Some(digits) => match input {
                        Input::Star => {
                            digits.move_cursor_left();
                        },
                        Input::Hash => {
                            digits.move_cursor_right();
                        },
                        x => {
                            if let Some(digit) = x.to_digit() {
                                digits.add_digit(digit);
                            } else if let Some(counter_selection) = CounterSelection::from_input(
                                &x,
                            ) {
                                if self.selected_counter == counter_selection {
                                    let new_val = digits.parse();
                                    self.get_counter_mut().set(new_val);
                                }
                                self.change_mode(Mode::Normal);
                            }
                        },
                    },
                    None => {},
                }
            },
            Mode::ConfirmReset => match input {
                Input::Star => {
                    self.change_mode(Mode::Normal);
                },
                Input::Hash => {
                    self.get_counter_mut().reset();
                    self.change_mode(Mode::Normal);
                },
                _ => {},
            },
        }
    }
}

} // verus!
