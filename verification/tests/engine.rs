use cardahoy::api::ApiError;
use cardahoy::decimal::{Decimal, NumericError};
use cardahoy::engine::{BuyDecisionEngine, Evaluation, Outcome, DEFAULT_MAX_LEVEL};
use cardahoy::market_home::{AccumulateTrait, CardInformation, MarketHomeResponse, MetadataList};

fn offer(handle: &str, sale_price: &str, level: u32, unit: Option<&str>) -> CardInformation {
    CardInformation {
        chain_nft_id: 12,
        amount: 1,
        price_unity: "USDT".to_string(),
        priority_trait1: "1".to_string(),
        accumulate_trait: AccumulateTrait { name: "EXP".to_string(), value: level },
        nft_type: 0,
        image: String::new(),
        sale_price: sale_price.to_string(),
        token_id: "1".to_string(),
        nft_name: "Ammo Crate #1".to_string(),
        priority_trait_2: String::new(),
        sale_aggregator_number: handle.to_string(),
        metadata_list: match unit {
            Some(value) => vec![MetadataList {
                name: "Price/EXP".to_string(),
                value: value.to_string(),
                if_accumulate: Some(false),
            }],
            None => vec![],
        },
    }
}

fn fetched(list: Vec<CardInformation>) -> Result<MarketHomeResponse, ApiError> {
    Ok(MarketHomeResponse { list })
}

fn dec(text: &str) -> Decimal {
    Decimal::parse(text).unwrap()
}

fn engine() -> BuyDecisionEngine {
    BuyDecisionEngine::new(DEFAULT_MAX_LEVEL)
}

#[test]
fn no_offers_is_no_qualifying_listing() {
    let evaluation = engine().evaluate(fetched(vec![]), &dec("100"));
    assert!(matches!(
        evaluation,
        Evaluation::Done(Outcome::NoQualifyingListing)
    ));
}

#[test]
fn a_price_at_the_threshold_is_bought() {
    let evaluation = engine().evaluate(fetched(vec![offer("h-1", "9.00", 3, None)]), &dec("3.00"));
    match evaluation {
        Evaluation::Attempt { listing_handle, price } => {
            assert_eq!(listing_handle, "h-1");
            assert_eq!(price, "9.00");
        }
        other => panic!("{:?}", other),
    }
}

#[test]
fn a_price_below_the_threshold_is_bought() {
    let evaluation = engine().evaluate(
        fetched(vec![offer("h-1", "8.99", 3, None), offer("h-2", "1", 1, None)]),
        &dec("3.00"),
    );
    assert!(matches!(evaluation, Evaluation::Attempt { ref listing_handle, .. } if listing_handle == "h-1"));
}

#[test]
fn a_price_above_the_threshold_is_left() {
    let evaluation = engine().evaluate(fetched(vec![offer("h-1", "9.01", 3, None)]), &dec("3.00"));
    assert!(matches!(
        evaluation,
        Evaluation::Done(Outcome::NoQualifyingListing)
    ));
}

#[test]
fn only_the_first_offer_counts() {
    let evaluation = engine().evaluate(
        fetched(vec![offer("h-1", "9.01", 3, None), offer("h-2", "0.01", 1, None)]),
        &dec("3.00"),
    );
    assert!(matches!(
        evaluation,
        Evaluation::Done(Outcome::NoQualifyingListing)
    ));
}

#[test]
fn an_offer_above_the_highest_level_is_skipped() {
    let evaluation = engine().evaluate(fetched(vec![offer("h-1", "0.01", 4, None)]), &dec("3.00"));
    assert!(matches!(
        evaluation,
        Evaluation::Done(Outcome::SkippedTooHighLevel { level: 4 })
    ));
    let evaluation = engine().evaluate(
        fetched(vec![offer("h-1", "0.01", 4, Some("0.001"))]),
        &dec("3.00"),
    );
    assert!(matches!(
        evaluation,
        Evaluation::Done(Outcome::SkippedTooHighLevel { level: 4 })
    ));
    let evaluation =
        BuyDecisionEngine::new(4).evaluate(fetched(vec![offer("h-1", "0.01", 4, None)]), &dec("3.00"));
    assert!(matches!(evaluation, Evaluation::Attempt { .. }));
}

#[test]
fn the_level_is_judged_before_the_price_is_read() {
    let evaluation = engine().evaluate(fetched(vec![offer("h-1", "free", 9, None)]), &dec("3.00"));
    assert!(matches!(
        evaluation,
        Evaluation::Done(Outcome::SkippedTooHighLevel { level: 9 })
    ));
}

#[test]
fn a_price_that_cannot_be_read_ends_the_matter() {
    let evaluation = engine().evaluate(fetched(vec![offer("h-1", "free", 3, None)]), &dec("3.00"));
    assert!(matches!(
        evaluation,
        Evaluation::Done(Outcome::UnreadableListing { reason: NumericError::Malformed })
    ));
    let evaluation = engine().evaluate(fetched(vec![offer("h-1", "1", 0, None)]), &dec("3.00"));
    assert!(matches!(
        evaluation,
        Evaluation::Done(Outcome::UnreadableListing { reason: NumericError::ZeroLevel })
    ));
}

#[test]
fn the_figure_of_the_marketplace_decides_where_it_is_given() {
    let evaluation = engine().evaluate(
        fetched(vec![offer("h-1", "900", 3, Some("3.00"))]),
        &dec("3.00"),
    );
    assert!(matches!(evaluation, Evaluation::Attempt { .. }));
    let evaluation = engine().evaluate(
        fetched(vec![offer("h-1", "0.01", 3, Some("3.01"))]),
        &dec("3.00"),
    );
    assert!(matches!(
        evaluation,
        Evaluation::Done(Outcome::NoQualifyingListing)
    ));
}

#[test]
fn a_failed_fetch_ends_the_matter() {
    let evaluation = engine().evaluate(
        Err(ApiError::Transport { message: "timed out".to_string() }),
        &dec("3.00"),
    );
    match evaluation {
        Evaluation::Done(Outcome::FetchFailed { error: ApiError::Transport { message } }) => {
            assert_eq!(message, "timed out")
        }
        other => panic!("{:?}", other),
    }
}

#[test]
fn a_confirmed_purchase_is_purchased_at_the_price() {
    let outcome = engine().conclude("9.00".to_string(), Ok("confirmed".to_string()));
    assert!(matches!(outcome, Outcome::Purchased { ref price } if price == "9.00"));
}

#[test]
fn a_handle_sold_already_is_a_failed_purchase() {
    let sold = ApiError::Rejected {
        code: "100021".to_string(),
        message: "listing no longer available".to_string(),
    };
    let outcome = engine().conclude("9.00".to_string(), Err(sold));
    match outcome {
        Outcome::PurchaseFailed { error: ApiError::Rejected { code, message } } => {
            assert_eq!(code, "100021");
            assert_eq!(message, "listing no longer available");
        }
        other => panic!("{:?}", other),
    }
}
