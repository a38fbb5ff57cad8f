use tally::counter::CounterSelection;
use tally::eeprom::{MemStorage, Storage};
use tally::input::Input;
use tally::state::{Mode, State, STATE_STORAGE_ADDRESS};

fn press(s: &mut State, st: &mut MemStorage, input: Input) {
    s.handle_input(input, st, STATE_STORAGE_ADDRESS);
}

#[test]
fn tally_edit_commit_scenario() {
    let mut st = MemStorage::new();
    let mut s = State::new();
    assert_eq!(s.mode, Mode::Normal);
    assert_eq!(s.selected_counter, CounterSelection::A);
    assert_eq!(s.counters.a.val, 0);

    press(&mut s, &mut st, Input::Hash);
    press(&mut s, &mut st, Input::Hash);
    press(&mut s, &mut st, Input::Hash);
    assert_eq!(s.counters.a.val, 3);
    assert!(s.counters.a.dirty);

    press(&mut s, &mut st, Input::A);
    assert_eq!(s.mode, Mode::Input);
    let editor = s.digits_input.as_ref().unwrap();
    assert_eq!(editor.buf.0, vec![0, 0, 0, 0, 3]);
    assert_eq!(editor.index, 0);

    press(&mut s, &mut st, Input::Star);
    press(&mut s, &mut st, Input::Num9);
    let editor = s.digits_input.as_ref().unwrap();
    assert_eq!(editor.buf.0, vec![0, 0, 0, 0, 9]);
    assert_eq!(editor.index, 0);

    press(&mut s, &mut st, Input::A);
    assert_eq!(s.mode, Mode::Normal);
    assert!(s.digits_input.is_none());
    assert_eq!(s.counters.a.val, 9);
    assert!(s.counters.a.dirty);
}

#[test]
fn confirm_reset_scenario() {
    let mut st = MemStorage::new();
    let mut s = State::new();
    s.counters.a.set(42);

    press(&mut s, &mut st, Input::Num0);
    assert_eq!(s.mode, Mode::ConfirmReset);
    assert_eq!(s.counters.a.val, 42);

    press(&mut s, &mut st, Input::Hash);
    assert_eq!(s.mode, Mode::Normal);
    assert_eq!(s.counters.a.val, 0);
    assert!(s.counters.a.dirty);

    s.counters.a.set(42);
    press(&mut s, &mut st, Input::Num0);
    assert_eq!(s.mode, Mode::ConfirmReset);
    press(&mut s, &mut st, Input::Star);
    assert_eq!(s.mode, Mode::Normal);
    assert_eq!(s.counters.a.val, 42);
}

#[test]
fn star_decrements_hash_increments() {
    let mut st = MemStorage::new();
    let mut s = State::new();
    press(&mut s, &mut st, Input::Star);
    assert_eq!(s.counters.a.val, 65535);
    press(&mut s, &mut st, Input::Hash);
    assert_eq!(s.counters.a.val, 0);
}

#[test]
fn selector_switches_before_editing() {
    let mut st = MemStorage::new();
    let mut s = State::new();
    press(&mut s, &mut st, Input::B);
    assert_eq!(s.mode, Mode::Normal);
    assert_eq!(s.selected_counter, CounterSelection::B);
    press(&mut s, &mut st, Input::Hash);
    assert_eq!(s.counters.b.val, 1);
    assert_eq!(s.counters.a.val, 0);
    press(&mut s, &mut st, Input::B);
    assert_eq!(s.mode, Mode::Input);
}

#[test]
fn other_selector_discards_edit() {
    let mut st = MemStorage::new();
    let mut s = State::new();
    press(&mut s, &mut st, Input::A);
    assert_eq!(s.mode, Mode::Input);
    press(&mut s, &mut st, Input::Num4);
    press(&mut s, &mut st, Input::B);
    assert_eq!(s.mode, Mode::Normal);
    // The edit is discarded and the selection stays on A.
    assert_eq!(s.selected_counter, CounterSelection::A);
    assert_eq!(s.counters.a.val, 0);
    assert_eq!(s.counters.b.val, 0);
    assert!(s.digits_input.is_none());
}

#[test]
fn save_key_persists_and_cleans() {
    let mut st = MemStorage::new();
    let mut s = State::new();
    press(&mut s, &mut st, Input::Hash);
    press(&mut s, &mut st, Input::Hash);
    press(&mut s, &mut st, Input::B);
    press(&mut s, &mut st, Input::Hash);
    assert!(s.counters.a.dirty);
    assert!(s.counters.b.dirty);

    press(&mut s, &mut st, Input::Num5);
    assert_eq!(s.mode, Mode::Normal);
    assert!(!s.counters.a.dirty);
    assert!(!s.counters.b.dirty);
    assert_eq!(
        st.read_bytes(STATE_STORAGE_ADDRESS, 8),
        vec![2, 0, 1, 0, 0, 0, 0, 0]
    );
}

#[test]
fn other_digits_do_nothing_in_normal_mode() {
    let mut st = MemStorage::new();
    let mut s = State::new();
    for input in [
        Input::Num1,
        Input::Num2,
        Input::Num3,
        Input::Num4,
        Input::Num6,
        Input::Num7,
        Input::Num8,
        Input::Num9,
    ] {
        press(&mut s, &mut st, input);
        assert_eq!(s.mode, Mode::Normal);
        assert_eq!(s.counters.a.val, 0);
        assert!(!s.counters.a.dirty);
    }
}

#[test]
fn editing_respects_top_digit_bound() {
    let mut st = MemStorage::new();
    let mut s = State::new();
    press(&mut s, &mut st, Input::A);
    press(&mut s, &mut st, Input::Num7);
    let editor = s.digits_input.as_ref().unwrap();
    assert_eq!(editor.buf.0, vec![0, 0, 0, 0, 0]);
    assert_eq!(editor.index, 0);
    press(&mut s, &mut st, Input::Num6);
    let editor = s.digits_input.as_ref().unwrap();
    assert_eq!(editor.buf.0, vec![6, 0, 0, 0, 0]);
    assert_eq!(editor.index, 1);
}
