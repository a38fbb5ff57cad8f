use tally::digits::{Digits, DigitsInput};

#[test]
fn roundtrip_sample_values() {
    for v in [0u16, 1, 9, 10, 99, 6553, 12345, 65534, 65535] {
        assert_eq!(DigitsInput::new(v).parse(), v);
    }
}

#[test]
fn from_u16_zero_padded() {
    assert_eq!(Digits::from_u16(7).0, vec![0, 0, 0, 0, 7]);
    assert_eq!(Digits::from_u16(65535).0, vec![6, 5, 5, 3, 5]);
}

#[test]
fn to_u16_saturates_above_max() {
    let mut e = DigitsInput::new(0);
    // Type 69999, which exceeds the 16-bit range.
    e.add_digit(6);
    e.add_digit(9);
    e.add_digit(9);
    e.add_digit(9);
    e.add_digit(9);
    assert_eq!(e.parse(), 65535);
}

#[test]
fn enter_digit_rejected_at_top_position() {
    for d in [7u8, 8, 9] {
        let mut e = DigitsInput::new(123);
        e.add_digit(d);
        assert_eq!(e.buf.0, Digits::from_u16(123).0);
        assert_eq!(e.index, 0);
    }
}

#[test]
fn enter_digit_accepted_at_top_position() {
    for d in 0u8..=6 {
        let mut e = DigitsInput::new(0);
        e.add_digit(d);
        assert_eq!(e.buf.0[0], d);
        assert_eq!(e.index, 1);
    }
}

#[test]
fn cursor_wraps_left_and_right() {
    let mut e = DigitsInput::new(0);
    assert_eq!(e.index, 0);
    e.move_cursor_left();
    assert_eq!(e.index, 4);
    e.move_cursor_right();
    assert_eq!(e.index, 0);
    e.move_cursor_right();
    assert_eq!(e.index, 1);
}

#[test]
fn enter_digit_auto_advances_and_wraps() {
    let mut e = DigitsInput::new(0);
    e.move_cursor_left();
    assert_eq!(e.index, 4);
    e.add_digit(9);
    assert_eq!(e.buf.0, vec![0, 0, 0, 0, 9]);
    assert_eq!(e.index, 0);
}

#[test]
fn to_chars_suppresses_leading_zeros() {
    assert_eq!(
        Digits::from_u16(0).to_chars(),
        vec![None, None, None, None, Some('0')]
    );
    assert_eq!(
        Digits::from_u16(10).to_chars(),
        vec![None, None, None, Some('1'), Some('0')]
    );
    assert_eq!(
        Digits::from_u16(65535).to_chars(),
        vec![Some('6'), Some('5'), Some('5'), Some('3'), Some('5')]
    );
}
