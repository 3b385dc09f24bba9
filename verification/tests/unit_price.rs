use cardahoy::decimal::{Decimal, NumericError};
use cardahoy::market_home::{AccumulateTrait, CardInformation, MetadataList};
use cardahoy::price::{effective_unit_price, explicit_unit_price, UnitPrice};

fn meta(name: &str, value: &str) -> MetadataList {
    MetadataList { name: name.to_string(), value: value.to_string(), if_accumulate: None }
}

fn offer(sale_price: &str, level: u32, metadata: Vec<MetadataList>) -> CardInformation {
    CardInformation {
        chain_nft_id: 12,
        amount: 1,
        price_unity: "USDT".to_string(),
        priority_trait1: "1".to_string(),
        accumulate_trait: AccumulateTrait { name: "EXP".to_string(), value: level },
        nft_type: 0,
        image: String::new(),
        sale_price: sale_price.to_string(),
        token_id: "1".to_string(),
        nft_name: "Ammo Crate #1".to_string(),
        priority_trait_2: String::new(),
        sale_aggregator_number: "handle-1".to_string(),
        metadata_list: metadata,
    }
}

fn dec(text: &str) -> Decimal {
    Decimal::parse(text).unwrap()
}

#[test]
fn ten_divided_by_four_is_two_and_a_half() {
    let price = effective_unit_price(&offer("10.0", 4, vec![])).unwrap();
    assert!(price.same_as(&dec("2.5")));
    assert!(!price.same_as(&dec("2.4")));
    assert!(!price.same_as(&dec("2.6")));
    assert_eq!(price.numerator_atto(), 10_000_000_000_000_000_000);
    assert_eq!(price.divisor_value(), 4);
}

#[test]
fn nine_divided_by_three_is_three() {
    let price = effective_unit_price(&offer("9.00", 3, vec![])).unwrap();
    assert!(price.same_as(&dec("3.00")));
    assert!(price.at_most(&dec("3.00")));
    assert!(price.at_most(&dec("3")));
    assert!(!price.at_most(&dec("2.99")));
}

#[test]
fn a_level_of_zero_is_an_error() {
    assert_eq!(
        effective_unit_price(&offer("10.0", 0, vec![])).unwrap_err(),
        NumericError::ZeroLevel
    );
}

#[test]
fn the_figure_of_the_marketplace_is_taken_as_given() {
    let card = offer("10.0", 4, vec![meta("Honor Points", "3"), meta("Price/EXP", "1.75")]);
    let price = effective_unit_price(&card).unwrap();
    assert!(price.same_as(&dec("1.75")));
    assert_eq!(price.divisor_value(), 1);
    let card = offer("10.0", 0, vec![meta("Price/EXP", "1.75")]);
    assert!(effective_unit_price(&card).unwrap().same_as(&dec("1.75")));
}

#[test]
fn the_first_figure_of_that_name_counts() {
    let card = offer("10.0", 4, vec![meta("Price/EXP", "2"), meta("Price/EXP", "1")]);
    assert!(effective_unit_price(&card).unwrap().same_as(&dec("2")));
    let card = offer("10.0", 4, vec![meta("price/exp", "2"), meta("Price/EXP ", "1")]);
    assert!(effective_unit_price(&card).unwrap().same_as(&dec("2.5")));
}

#[test]
fn a_figure_that_is_no_amount_is_an_error() {
    let card = offer("10.0", 4, vec![meta("Price/EXP", "cheap")]);
    assert_eq!(effective_unit_price(&card).unwrap_err(), NumericError::Malformed);
    let card = offer("10.0", 4, vec![meta("Price/EXP", "")]);
    assert_eq!(effective_unit_price(&card).unwrap_err(), NumericError::Empty);
    assert!(explicit_unit_price(&card).is_none());
}

#[test]
fn a_price_that_is_no_amount_is_an_error() {
    assert_eq!(
        effective_unit_price(&offer("ten", 4, vec![])).unwrap_err(),
        NumericError::Malformed
    );
    assert_eq!(
        effective_unit_price(&offer("ten", 0, vec![])).unwrap_err(),
        NumericError::Malformed
    );
    assert_eq!(
        effective_unit_price(&offer("", 4, vec![])).unwrap_err(),
        NumericError::Empty
    );
    assert_eq!(
        effective_unit_price(&offer("99999999999999999999", 4, vec![])).unwrap_err(),
        NumericError::OutOfRange
    );
}

#[test]
fn explicit_unit_price_reads_only_the_figure() {
    assert!(explicit_unit_price(&offer("10.0", 4, vec![])).is_none());
    let card = offer("10.0", 4, vec![meta("Honor Points", "3"), meta("Price/EXP", "1.75")]);
    let price = explicit_unit_price(&card).unwrap();
    assert_eq!((price.mantissa_digits(), price.scale_digits()), (175, 2));
}

#[test]
fn a_quotient_that_is_no_decimal_is_compared_exactly() {
    let price = effective_unit_price(&offer("10", 3, vec![])).unwrap();
    assert!(price.at_most(&dec("3.333333333333333334")));
    assert!(!price.at_most(&dec("3.333333333333333333")));
    assert!(!price.same_as(&dec("3.333333333333333333")));
}

#[test]
fn unit_price_new_refuses_a_divisor_of_zero() {
    assert!(UnitPrice::new(dec("1"), 0).is_none());
    let price = UnitPrice::new(dec("1"), 8).unwrap();
    assert!(price.same_as(&dec("0.125")));
}

#[test]
fn the_largest_values_compare_without_overflow() {
    let price = UnitPrice::new(dec("18446744073709551615"), 1).unwrap();
    assert!(price.at_most(&dec("18446744073709551615")));
    assert!(!price.at_most(&dec("18446744073709551614")));
    let price = UnitPrice::new(dec("1"), u32::MAX).unwrap();
    assert!(price.at_most(&dec("18446744073709551615")));
    assert!(!price.same_as(&dec("18446744073709551615")));
    assert!(!price.at_most(&dec("0")));
}

#[test]
fn the_place_of_the_figure_is_that_of_the_first_of_its_name() {
    use_place(vec![], 0);
    use_place(vec![meta("Honor Points", "3")], 1);
    use_place(vec![meta("Price/EXP", "1")], 0);
    use_place(vec![meta("Honor Points", "3"), meta("Price/EXP", "1"), meta("Price/EXP", "2")], 1);
    use_place(vec![meta("price/exp", "3"), meta("Price/EXP ", "1")], 2);
}

fn use_place(list: Vec<MetadataList>, expected: usize) {
    assert_eq!(cardahoy::price::unit_price_place(&list), expected);
}
