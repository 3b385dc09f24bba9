use cardahoy::decimal::{Decimal, NumericError};

fn parts(text: &str) -> (u64, u8) {
    let d = Decimal::parse(text).unwrap();
    (d.mantissa_digits(), d.scale_digits())
}

fn fault(text: &str) -> NumericError {
    Decimal::parse(text).unwrap_err()
}

#[test]
fn parse_reads_digits_and_scale() {
    assert_eq!(parts("5.00"), (500, 2));
    assert_eq!(parts("12"), (12, 0));
    assert_eq!(parts("0.35"), (35, 2));
    assert_eq!(parts("007"), (7, 0));
    assert_eq!(parts("0"), (0, 0));
    assert_eq!(parts("0.0"), (0, 1));
}

#[test]
fn parse_takes_a_point_at_either_end() {
    assert_eq!(parts(".5"), (5, 1));
    assert_eq!(parts("5."), (5, 0));
}

#[test]
fn parse_refuses_the_empty_text() {
    assert_eq!(fault(""), NumericError::Empty);
}

#[test]
fn parse_refuses_what_is_no_amount() {
    assert_eq!(fault("."), NumericError::Malformed);
    assert_eq!(fault("1.2.3"), NumericError::Malformed);
    assert_eq!(fault("1..2"), NumericError::Malformed);
    assert_eq!(fault("-1"), NumericError::Malformed);
    assert_eq!(fault("+1"), NumericError::Malformed);
    assert_eq!(fault("1e3"), NumericError::Malformed);
    assert_eq!(fault("5,0"), NumericError::Malformed);
    assert_eq!(fault(" 5"), NumericError::Malformed);
    assert_eq!(fault("5 "), NumericError::Malformed);
    assert_eq!(fault("abc"), NumericError::Malformed);
    assert_eq!(fault("NaN"), NumericError::Malformed);
    assert_eq!(fault("inf"), NumericError::Malformed);
    assert_eq!(fault("５"), NumericError::Malformed);
    assert_eq!(fault("5.0€"), NumericError::Malformed);
}

#[test]
fn parse_holds_eighteen_digits_after_the_point() {
    assert_eq!(parts("0.000000000000000001"), (1, 18));
    assert_eq!(fault("0.0000000000000000001"), NumericError::OutOfRange);
    assert_eq!(parts("1.6666666666666667"), (16666666666666667, 16));
}

#[test]
fn parse_holds_sixty_four_bits_of_digits() {
    assert_eq!(parts("18446744073709551615"), (u64::MAX, 0));
    assert_eq!(fault("18446744073709551616"), NumericError::OutOfRange);
    assert_eq!(fault("99999999999999999999"), NumericError::OutOfRange);
    assert_eq!(parts("1844674407370955161.5"), (u64::MAX, 1));
    assert_eq!(parts("00000000000000000000000001"), (1, 0));
}

#[test]
fn malformed_comes_before_out_of_range() {
    assert_eq!(fault("99999999999999999999x"), NumericError::Malformed);
    assert_eq!(fault("0.0000000000000000001."), NumericError::Malformed);
}

#[test]
fn new_refuses_a_scale_above_eighteen() {
    assert!(Decimal::new(1, 18).is_some());
    assert!(Decimal::new(1, 19).is_none());
    let d = Decimal::new(250, 2).unwrap();
    assert_eq!((d.mantissa_digits(), d.scale_digits()), (250, 2));
    let d = Decimal::from_units(7);
    assert_eq!((d.mantissa_digits(), d.scale_digits()), (7, 0));
}

#[test]
fn to_atto_is_the_value_in_units_of_ten_to_the_minus_eighteen() {
    assert_eq!(Decimal::parse("2.5").unwrap().to_atto(), 2_500_000_000_000_000_000);
    assert_eq!(Decimal::parse("1").unwrap().to_atto(), 1_000_000_000_000_000_000);
    assert_eq!(Decimal::parse("0.000000000000000001").unwrap().to_atto(), 1);
    assert_eq!(Decimal::parse("0").unwrap().to_atto(), 0);
    assert_eq!(Decimal::parse("0.001").unwrap().to_atto(), 1_000_000_000_000_000);
    assert_eq!(Decimal::parse("12.3456789").unwrap().to_atto(), 12_345_678_900_000_000_000);
    assert_eq!(
        Decimal::parse("18446744073709551615").unwrap().to_atto(),
        18446744073709551615u128 * 1_000_000_000_000_000_000u128
    );
}

#[test]
fn amounts_compare_as_numbers_not_as_text() {
    let nine = Decimal::parse("9").unwrap();
    let ten = Decimal::parse("10").unwrap();
    assert!("9" > "10");
    assert!(nine.le(&ten));
    assert!(!ten.le(&nine));
    let a = Decimal::parse("9.99").unwrap();
    assert!(a.le(&ten));
    let b = Decimal::parse("10.01").unwrap();
    assert!(!b.le(&ten));
}

#[test]
fn the_comparison_is_inclusive() {
    let a = Decimal::parse("5").unwrap();
    let b = Decimal::parse("5.00").unwrap();
    assert!(a.le(&b));
    assert!(b.le(&a));
    assert!(a.same_value(&b));
    let c = Decimal::parse("5.000000000000000001").unwrap();
    assert!(!c.le(&a));
    assert!(a.le(&c));
    assert!(!a.same_value(&c));
}

#[test]
fn the_largest_amounts_compare_without_overflow() {
    let max = Decimal::parse("18446744073709551615").unwrap();
    let small = Decimal::parse("0.000000000000000001").unwrap();
    assert!(small.le(&max));
    assert!(!max.le(&small));
    assert!(max.le(&max));
}
