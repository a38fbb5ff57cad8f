use tally::counter::{Counter, CounterSelection, Counters};
use tally::input::Input;

#[test]
fn inc_wraps_at_max() {
    let mut c = Counter::new(65535);
    c.inc();
    assert_eq!(c.val, 0);
    assert!(c.dirty);
}

#[test]
fn dec_wraps_at_zero() {
    let mut c = Counter::new(0);
    c.dec();
    assert_eq!(c.val, 65535);
    assert!(c.dirty);
}

#[test]
fn inc_dec_stay_in_range() {
    let mut c = Counter::new(65534);
    for _ in 0..4 {
        c.inc();
    }
    assert_eq!(c.val, 2);
    for _ in 0..4 {
        c.dec();
    }
    assert_eq!(c.val, 65534);
    assert!(c.dirty);
}

#[test]
fn reset_zeroes_and_dirties() {
    let mut c = Counter::new(4711);
    assert!(!c.dirty);
    c.reset();
    assert_eq!(c.val, 0);
    assert!(c.dirty);

    let mut d = Counter::new(0);
    d.set(9);
    d.reset();
    assert_eq!(d.val, 0);
    assert!(d.dirty);
}

#[test]
fn set_dirties_even_when_unchanged() {
    let mut c = Counter::new(7);
    c.set(7);
    assert_eq!(c.val, 7);
    assert!(c.dirty);
}

#[test]
fn clean_keeps_value() {
    let mut c = Counter::new(0);
    c.inc();
    c.clean();
    assert_eq!(c.val, 1);
    assert!(!c.is_dirty());
}

#[test]
fn to_digits_most_significant_first() {
    let c = Counter::new(12345);
    let d = c.to_digits();
    assert_eq!(d.0, vec![1, 2, 3, 4, 5]);
    let z = Counter::new(0);
    assert_eq!(z.to_digits().0, vec![0, 0, 0, 0, 0]);
    let m = Counter::new(65535);
    assert_eq!(m.to_digits().0, vec![6, 5, 5, 3, 5]);
}

#[test]
fn selection_letters() {
    assert_eq!(CounterSelection::A.to_char(), 'A');
    assert_eq!(CounterSelection::B.to_char(), 'B');
    assert_eq!(CounterSelection::C.to_char(), 'C');
    assert_eq!(CounterSelection::D.to_char(), 'D');
}

#[test]
fn selection_from_input() {
    assert_eq!(CounterSelection::from_input(&Input::A), Some(CounterSelection::A));
    assert_eq!(CounterSelection::from_input(&Input::D), Some(CounterSelection::D));
    assert_eq!(CounterSelection::from_input(&Input::Num3), None);
    assert_eq!(CounterSelection::from_input(&Input::Star), None);
}

#[test]
fn counters_get_by_selection() {
    let mut cs = Counters {
        a: Counter::new(1),
        b: Counter::new(2),
        c: Counter::new(3),
        d: Counter::new(4),
    };
    assert_eq!(cs.get(CounterSelection::C).val, 3);
    cs.get_mut(CounterSelection::B).inc();
    assert_eq!(cs.b.val, 3);
    assert_eq!(cs.a.val, 1);
}
