//! Control logic of a four-counter tally device: a keypad-driven mode state
//! machine, a bounded digit editor, counters with dirty tracking, a
//! byte-addressed storage abstraction with a fixed serialization layout, an
//! edge-triggered input debouncer, and a pure display renderer.

pub mod counter;
pub mod digits;
pub mod display;
pub mod eeprom;
pub mod input;
pub mod state;
