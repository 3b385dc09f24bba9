use cardahoy::decimal::NumericError;
use cardahoy::market_home::{AccumulateTrait, CardInformation, MarketHomeResponse, MetadataList};
use cardahoy::nft::NftCardId;
use cardahoy::strategy::{
    buy_at_half_average, cheap_gold_offers, gold_pairs, half_average_for, sum_top_prices,
};

fn offer(sale_price: &str, level: u32, unit: Option<&str>) -> CardInformation {
    CardInformation {
        chain_nft_id: 12,
        amount: 1,
        price_unity: "USDT".to_string(),
        priority_trait1: "1".to_string(),
        accumulate_trait: AccumulateTrait { name: "EXP".to_string(), value: level },
        nft_type: 0,
        image: String::new(),
        sale_price: sale_price.to_string(),
        token_id: "1".to_string(),
        nft_name: "card".to_string(),
        priority_trait_2: String::new(),
        sale_aggregator_number: "handle".to_string(),
        metadata_list: match unit {
            Some(value) => vec![MetadataList {
                name: "Price/EXP".to_string(),
                value: value.to_string(),
                if_accumulate: None,
            }],
            None => vec![],
        },
    }
}

fn plain(prices: &[&str]) -> Vec<CardInformation> {
    prices.iter().map(|p| offer(p, 1, None)).collect()
}

fn gold(units: &[Option<&str>]) -> Vec<CardInformation> {
    units.iter().map(|u| offer("100", 1, *u)).collect()
}

#[test]
fn the_sum_is_taken_over_the_first_five() {
    let sum = sum_top_prices(&plain(&["1", "2", "3", "4", "5", "100"])).unwrap();
    assert_eq!(sum.numerator_value(), 15_000_000_000_000_000_000);
    assert_eq!(sum.denominator_value(), 1);
    let sum = sum_top_prices(&plain(&["1", "2"])).unwrap();
    assert_eq!(sum.numerator_value(), 3_000_000_000_000_000_000);
    let sum = sum_top_prices(&plain(&[])).unwrap();
    assert_eq!((sum.numerator_value(), sum.denominator_value()), (0, 1));
}

#[test]
fn fractions_are_added_over_the_product_of_their_divisors() {
    let offers = vec![offer("1", 2, None), offer("1", 3, None)];
    let sum = sum_top_prices(&offers).unwrap();
    assert_eq!(sum.numerator_value(), 5_000_000_000_000_000_000);
    assert_eq!(sum.denominator_value(), 6);
}

#[test]
fn a_price_that_cannot_be_read_fails_the_sum() {
    assert_eq!(
        sum_top_prices(&plain(&["1", "x", ""])).unwrap_err(),
        NumericError::Malformed
    );
    assert_eq!(
        sum_top_prices(&vec![offer("1", 1, None), offer("1", 0, None)]).unwrap_err(),
        NumericError::ZeroLevel
    );
    assert!(sum_top_prices(&plain(&["1", "2", "3", "4", "5", "x"])).is_ok());
}

#[test]
fn a_sum_that_does_not_fit_is_an_overflow() {
    let big = "18446744073709551615";
    let offers = plain(&[big, big, big, big, big]);
    assert!(sum_top_prices(&offers).is_ok());
    let offers: Vec<CardInformation> =
        (0..5).map(|i| offer(big, 4_000_000_000 + i, None)).collect();
    assert_eq!(sum_top_prices(&offers).unwrap_err(), NumericError::Overflow);
}

#[test]
fn half_the_average_is_the_threshold() {
    // the average of 1, 3, 3, 3 and 0 is 2: half of it is 1
    assert_eq!(buy_at_half_average(&plain(&["1", "3", "3", "3", "0"])), Ok(true));
    assert_eq!(buy_at_half_average(&plain(&["1.01", "3", "3", "2.99", "0"])), Ok(false));
    assert_eq!(buy_at_half_average(&plain(&["0.99", "3", "3", "3.01", "0"])), Ok(true));
}

#[test]
fn the_average_is_taken_over_five_also_of_fewer() {
    // two offers: the sum is 10, the average over five is 2, half of it is 1
    assert_eq!(buy_at_half_average(&plain(&["1", "9"])), Ok(true));
    assert_eq!(buy_at_half_average(&plain(&["1.5", "8.5"])), Ok(false));
    assert_eq!(buy_at_half_average(&plain(&["1"])), Ok(false));
    assert_eq!(buy_at_half_average(&plain(&["0"])), Ok(true));
    assert_eq!(buy_at_half_average(&plain(&[])), Ok(false));
}

#[test]
fn the_half_average_works_on_prices_per_unit() {
    let offers = vec![
        offer("4", 4, None),
        offer("100", 1, Some("3")),
        offer("9", 3, None),
        offer("3", 1, None),
        offer("0", 7, None),
    ];
    assert_eq!(buy_at_half_average(&offers), Ok(true));
    assert_eq!(half_average_for(&MarketHomeResponse { list: offers }), Ok(true));
}

#[test]
fn the_half_average_fails_where_a_price_cannot_be_read() {
    assert_eq!(
        buy_at_half_average(&plain(&["1", "2", "x"])),
        Err(NumericError::Malformed)
    );
    assert_eq!(
        buy_at_half_average(&vec![offer("1", 0, None)]),
        Err(NumericError::ZeroLevel)
    );
}

#[test]
fn gold_below_eleven_tenths_of_the_average_is_bought() {
    // the average of the plain card is 2; eleven tenths of it are 2.2
    let plain = plain(&["2", "2", "2", "2", "2", "3", "3", "3", "3", "3"]);
    let gold = gold(&[Some("2.19"), Some("2.2"), Some("2.21"), Some("0.01")]);
    assert_eq!(cheap_gold_offers(&plain, &gold), Ok(vec![0]));
    let gold = super_gold(&["2.199999", "1", "0"]);
    assert_eq!(cheap_gold_offers(&plain, &gold), Ok(vec![0, 1, 2]));
    let gold = super_gold(&["3", "1", "5"]);
    assert_eq!(cheap_gold_offers(&plain, &gold), Ok(vec![1]));
}

fn super_gold(units: &[&str]) -> Vec<CardInformation> {
    units.iter().map(|u| offer("100", 1, Some(u))).collect()
}

#[test]
fn only_the_first_three_gold_offers_are_looked_at() {
    let plain = plain(&["2", "2", "2", "2", "2", "3", "3", "3", "3", "3"]);
    let gold = super_gold(&["9", "9", "9", "0.01"]);
    assert_eq!(cheap_gold_offers(&plain, &gold), Ok(vec![]));
    assert_eq!(cheap_gold_offers(&plain, &Vec::new()), Ok(vec![]));
}

#[test]
fn gold_without_a_figure_of_the_marketplace_is_not_bought() {
    let plain = plain(&["2", "2", "2", "2", "2", "3", "3", "3", "3", "3"]);
    let gold = gold(&[None, Some("cheap"), Some("1")]);
    assert_eq!(cheap_gold_offers(&plain, &gold), Ok(vec![2]));
}

#[test]
fn with_fewer_than_ten_plain_offers_no_gold_is_bought() {
    let plain = plain(&["2", "2", "2", "2", "2", "3", "3", "3", "3"]);
    let gold = super_gold(&["0.01"]);
    assert_eq!(cheap_gold_offers(&plain, &gold), Ok(vec![]));
    let broken = self::plain(&["x"]);
    assert_eq!(cheap_gold_offers(&broken, &gold), Ok(vec![]));
}

#[test]
fn the_gold_rule_fails_where_a_plain_price_cannot_be_read() {
    let plain = plain(&["2", "2", "x", "2", "2", "3", "3", "3", "3", "3"]);
    let gold = super_gold(&["0.01"]);
    assert_eq!(cheap_gold_offers(&plain, &gold), Err(NumericError::Malformed));
    let plain = self::plain(&["2", "2", "2", "2", "2", "x", "3", "3", "3", "3"]);
    assert_eq!(cheap_gold_offers(&plain, &gold), Ok(vec![0]));
}

#[test]
fn the_pairs_hold_each_plain_card_once_with_its_gold_card() {
    let pairs = gold_pairs();
    assert_eq!(pairs.len(), 35);
    assert_eq!(pairs[0], (NftCardId::WolfKing, NftCardId::WolfKingGold));
    assert_eq!(pairs[34], (NftCardId::Radish, NftCardId::RadishGold));
    let mut plain: Vec<u32> = pairs.iter().map(|p| p.0.to_wire_code()).collect();
    plain.sort();
    plain.dedup();
    assert_eq!(plain.len(), 35);
    for (plain, gold) in pairs {
        assert_eq!(format!("{} (Gold)", plain.to_string()), gold.to_string());
    }
}

#[test]
fn the_average_is_rounded_to_thousandths_with_halves_up() {
    // the sum 10 over five is 2
    let sum = sum_top_prices(&plain(&["1", "3", "3", "3", "0"])).unwrap();
    assert_eq!(sum.average_thousandths(), Some(2000));
    // the sum 1 over five is 0.2
    let sum = sum_top_prices(&plain(&["1"])).unwrap();
    assert_eq!(sum.average_thousandths(), Some(200));
    // 0.0024 over five is 0.00048: below a half of a thousandth
    let sum = sum_top_prices(&plain(&["0.0024"])).unwrap();
    assert_eq!(sum.average_thousandths(), Some(0));
    // 0.0025 over five is 0.0005: a half is rounded up
    let sum = sum_top_prices(&plain(&["0.0025"])).unwrap();
    assert_eq!(sum.average_thousandths(), Some(1));
    // 10 / 3 over five is 0.666...
    let sum = sum_top_prices(&vec![offer("10", 3, None)]).unwrap();
    assert_eq!(sum.average_thousandths(), Some(667));
    let sum = sum_top_prices(&plain(&[])).unwrap();
    assert_eq!(sum.average_thousandths(), Some(0));
}

#[test]
fn an_average_that_does_not_fit_is_none() {
    let big = "18446744073709551615";
    let sum = sum_top_prices(&plain(&[big, big, big, big, big])).unwrap();
    assert_eq!(sum.average_thousandths(), Some(18446744073709551615000));
    let tiny = "0.000000000000000001";
    let offers: Vec<CardInformation> =
        (0..3).map(|_| offer(tiny, 4_000_000_000, None)).collect();
    let sum = sum_top_prices(&offers).unwrap();
    assert_eq!(sum.numerator_value(), 48_000_000_000_000_000_000);
    assert_eq!(sum.denominator_value(), 64_000_000_000_000_000_000_000_000_000);
    assert_eq!(sum.average_thousandths(), None);
}
