use galileo::cartesian::size::Size;

#[test]
fn size_keeps_width_and_height() {
    let size = Size::new(10i64, 7i64);
    assert_eq!(size.width(), 10);
    assert_eq!(size.height(), 7);
    let small = Size::new(3u8, 4u8);
    assert_eq!(small.width(), 3);
    assert_eq!(small.height(), 4);
}

#[test]
fn halves_round_towards_zero() {
    let size = Size::new(10i64, 7i64);
    assert_eq!(size.half_width(), 5);
    assert_eq!(size.half_height(), 3);
    let negative = Size::new(-7i64, -1i64);
    assert_eq!(negative.half_width(), -3);
    assert_eq!(negative.half_height(), 0);
    let extreme = Size::new(i64::MIN, i64::MAX);
    assert_eq!(extreme.half_width(), -4611686018427387904);
    assert_eq!(extreme.half_height(), 4611686018427387903);
}

#[test]
fn size_is_zero_where_a_side_is() {
    assert!(Size::new(0i64, 5i64).is_zero());
    assert!(Size::new(5i64, 0i64).is_zero());
    assert!(Size::new(0i64, 0i64).is_zero());
    assert!(!Size::new(1i64, -1i64).is_zero());
    assert!(!Size::new(i64::MIN, i64::MAX).is_zero());
}

#[test]
fn cast_keeps_what_fits_in_32_bits() {
    assert_eq!(Size::new(10i64, -7i64).cast(), Some(Size::new(10i32, -7i32)));
    assert_eq!(
        Size::new(2147483647i64, -2147483648i64).cast(),
        Some(Size::new(i32::MAX, i32::MIN))
    );
    assert_eq!(Size::new(2147483648i64, 0i64).cast(), None);
    assert_eq!(Size::new(0i64, -2147483649i64).cast(), None);
    assert_eq!(Size::new(i64::MAX, i64::MIN).cast(), None);
}

#[test]
fn default_size_is_zero() {
    let size: Size<i64> = Size::default();
    assert_eq!(size, Size::new(0, 0));
    assert!(size.is_zero());
}
