use tally::counter::{Counter, CounterSelection, Counters};
use tally::eeprom::{MemStorage, Storable, Storage};
use tally::state::{Mode, State};

#[test]
fn byte_write_read() {
    let mut st = MemStorage::new();
    assert_eq!(st.read_byte(1337), 0);
    st.write_byte(1337, 0xab);
    assert_eq!(st.read_byte(1337), 0xab);
    // Writing the same byte again leaves it readable unchanged.
    st.write_byte(1337, 0xab);
    assert_eq!(st.read_byte(1337), 0xab);
    assert_eq!(st.read_byte(1336), 0);
    assert_eq!(st.read_byte(1338), 0);
}

#[test]
fn bulk_write_read() {
    let mut st = MemStorage::new();
    st.write_bytes(100, &[1, 2, 3, 4]);
    assert_eq!(st.read_bytes(100, 4), vec![1, 2, 3, 4]);
    assert_eq!(st.read_bytes(99, 6), vec![0, 1, 2, 3, 4, 0]);
}

#[test]
fn counter_roundtrip_little_endian() {
    let mut st = MemStorage::new();
    let c = Counter::new(0x1234);
    c.store(&mut st, 40);
    assert_eq!(st.read_byte(40), 0x34);
    assert_eq!(st.read_byte(41), 0x12);
    let back = Counter::load(&st, 40);
    assert_eq!(back.val, 0x1234);
    assert!(!back.dirty);
}

#[test]
fn counters_roundtrip() {
    let mut st = MemStorage::new();
    let mut cs = Counters {
        a: Counter::new(1),
        b: Counter::new(2),
        c: Counter::new(300),
        d: Counter::new(65535),
    };
    cs.a.inc();
    assert!(cs.a.dirty);
    cs.store(&mut st, 500);
    let back = Counters::load(&st, 500);
    assert_eq!(back.a.val, 2);
    assert_eq!(back.b.val, 2);
    assert_eq!(back.c.val, 300);
    assert_eq!(back.d.val, 65535);
    assert!(!back.a.dirty);
    assert!(!back.b.dirty);
    assert!(!back.c.dirty);
    assert!(!back.d.dirty);
}

#[test]
fn persisted_bytes_load_as_documented() {
    let mut st = MemStorage::new();
    let base = 1337;
    st.write_bytes(base, &[0x05, 0x00, 0x0a, 0x00, 0x00, 0x00, 0x00, 0x00]);
    let s = State::load(&st, base);
    assert_eq!(s.counters.a.val, 5);
    assert_eq!(s.counters.b.val, 10);
    assert_eq!(s.counters.c.val, 0);
    assert_eq!(s.counters.d.val, 0);
    assert!(!s.counters.a.dirty);
    assert!(!s.counters.b.dirty);
    assert!(!s.counters.c.dirty);
    assert!(!s.counters.d.dirty);
    assert_eq!(s.mode, Mode::Normal);
    assert_eq!(s.selected_counter, CounterSelection::A);
    assert!(s.digits_input.is_none());
}

#[test]
fn state_store_persists_only_counters() {
    let mut st = MemStorage::new();
    let mut s = State::new();
    s.counters.b.set(10);
    s.store(&mut st, 0);
    assert_eq!(st.read_bytes(0, 8), vec![0, 0, 10, 0, 0, 0, 0, 0]);
}
