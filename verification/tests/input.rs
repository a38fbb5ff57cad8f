use tally::input::{Debouncer, Input};

#[test]
fn debounce_emits_once_per_press() {
    let mut d = Debouncer::new();
    assert_eq!(d.debounce(Some(Input::Hash)), Some(Input::Hash));
    assert_eq!(d.debounce(Some(Input::Hash)), None);
}

#[test]
fn debounce_rearms_on_release() {
    let mut d = Debouncer::new();
    assert_eq!(d.debounce(Some(Input::Num5)), Some(Input::Num5));
    assert_eq!(d.debounce(Some(Input::Num5)), None);
    assert_eq!(d.debounce(None), None);
    assert_eq!(d.debounce(Some(Input::Num5)), Some(Input::Num5));
}

#[test]
fn debounce_emits_on_symbol_change() {
    let mut d = Debouncer::new();
    assert_eq!(d.debounce(Some(Input::Star)), Some(Input::Star));
    assert_eq!(d.debounce(Some(Input::Hash)), Some(Input::Hash));
    assert_eq!(d.debounce(Some(Input::Hash)), None);
}

#[test]
fn serial_bytes_decode() {
    assert_eq!(Input::from_serial(b'0'), Some(Input::Num0));
    assert_eq!(Input::from_serial(b'9'), Some(Input::Num9));
    assert_eq!(Input::from_serial(b'*'), Some(Input::Star));
    assert_eq!(Input::from_serial(b'#'), Some(Input::Hash));
    assert_eq!(Input::from_serial(b'a'), Some(Input::A));
    assert_eq!(Input::from_serial(b'd'), Some(Input::D));
    assert_eq!(Input::from_serial(b'e'), None);
    assert_eq!(Input::from_serial(b' '), None);
}

#[test]
fn digits_decode() {
    assert_eq!(Input::Num0.to_digit(), Some(0));
    assert_eq!(Input::Num9.to_digit(), Some(9));
    assert_eq!(Input::Star.to_digit(), None);
    assert_eq!(Input::A.to_digit(), None);
}

#[test]
fn matrix_layout() {
    assert_eq!(Input::from_matrix(2, 3), Input::Num1);
    assert_eq!(Input::from_matrix(3, 0), Input::Num0);
    assert_eq!(Input::from_matrix(2, 0), Input::Star);
    assert_eq!(Input::from_matrix(1, 0), Input::Hash);
    assert_eq!(Input::from_matrix(0, 3), Input::A);
    assert_eq!(Input::from_matrix(0, 0), Input::D);
}
