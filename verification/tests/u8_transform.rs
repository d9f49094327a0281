use int_interval::U8CO;

fn span(lo: u8, hi: u8) -> U8CO {
    U8CO::try_new(lo, hi).unwrap()
}

#[test]
fn scale_basic() {
    let a = span(2, 5);
    let scaled = a.scale(3).unwrap();
    assert_eq!(scaled, span(6, 15));
}

#[test]
fn shift_basic() {
    let a = span(1, 4);
    let shifted = a.shift(5).unwrap();
    assert_eq!(shifted, span(6, 9));
}

#[test]
fn saturating_arithmetic() {
    let a = span(u8::MAX.saturating_sub(5), u8::MAX);

    let scaled = a.scale(2);
    assert!(scaled.is_none());

    let shifted = a.shift(10);
    assert!(shifted.is_none());
}
