use cardahoy::decimal::Decimal;
use cardahoy::engine::Outcome;
use cardahoy::market_secondary::{MarketSecondaryResponse, Secondary};
use cardahoy::orchestrator::{Mode, Phase, ScanAction, ScanOrchestrator};
use cardahoy::price_table::PriceTable;

fn row(id: u32, floor: &str) -> Secondary {
    Secondary {
        volume: 0,
        quantity: 1,
        secondary_id: id,
        secondary_name: String::new(),
        nft_name: String::new(),
        image: String::new(),
        chain_nft_id: 12,
        floor_price: floor.to_string(),
        price_unity: "USDT".to_string(),
    }
}

fn page(total: u32, ids: &[u32]) -> MarketSecondaryResponse {
    MarketSecondaryResponse { total, list: ids.iter().map(|id| row(*id, "1.00")).collect() }
}

fn prices(ids: &[u32]) -> PriceTable {
    let mut t = PriceTable::new();
    for id in ids {
        t.insert(*id, Decimal::parse("1.00").unwrap());
    }
    t
}

fn nothing() -> Outcome {
    Outcome::NoQualifyingListing
}

#[test]
fn a_new_orchestrator_is_idle() {
    let o = ScanOrchestrator::new(Mode::Continuous, 3, 20);
    assert_eq!(o.current_phase(), Phase::Idle);
    assert!(o.collected().is_empty());
    assert!(o.candidate(0).is_none());
}

#[test]
fn start_asks_for_the_first_page() {
    let mut o = ScanOrchestrator::new(Mode::Continuous, 3, 20);
    assert_eq!(o.start(), ScanAction::FetchPage { page: 1, page_size: 20 });
    assert_eq!(o.current_phase(), Phase::Scanning);
    assert_eq!(o.start(), ScanAction::Ignored);
    assert_eq!(o.current_phase(), Phase::Scanning);
}

#[test]
fn a_width_or_page_size_of_zero_counts_as_one() {
    let mut o = ScanOrchestrator::new(Mode::SingleShot, 0, 0);
    assert_eq!(o.start(), ScanAction::FetchPage { page: 1, page_size: 1 });
    assert_eq!(o.page_fetched(page(0, &[1, 2])), ScanAction::Filter);
    assert_eq!(o.filter(&prices(&[1, 2])), ScanAction::Evaluate { first: 0, count: 1 });
}

#[test]
fn a_failed_setup_terminates() {
    let mut o = ScanOrchestrator::new(Mode::Continuous, 3, 20);
    assert_eq!(o.setup_failed(), ScanAction::Stop);
    assert_eq!(o.current_phase(), Phase::Terminated);
    assert_eq!(o.start(), ScanAction::Ignored);
    assert_eq!(o.setup_failed(), ScanAction::Ignored);
    assert_eq!(o.current_phase(), Phase::Terminated);
}

#[test]
fn pages_are_fetched_until_all_are_here() {
    let mut o = ScanOrchestrator::new(Mode::SingleShot, 3, 2);
    o.start();
    assert_eq!(o.page_fetched(page(5, &[1, 2])), ScanAction::FetchPage { page: 2, page_size: 2 });
    assert_eq!(o.page_fetched(page(5, &[3, 4])), ScanAction::FetchPage { page: 3, page_size: 2 });
    assert_eq!(o.page_fetched(page(5, &[5])), ScanAction::Filter);
    assert_eq!(o.current_phase(), Phase::Filtering);
    assert_eq!(o.filter(&prices(&[1, 2, 3, 4, 5])), ScanAction::Evaluate { first: 0, count: 3 });
    let ids: Vec<u32> = (0..5).map(|i| o.candidate(i).unwrap().secondary_id).collect();
    assert_eq!(ids, vec![1, 2, 3, 4, 5]);
    assert!(o.candidate(5).is_none());
}

#[test]
fn a_total_that_fills_its_pages_asks_for_one_page_more() {
    let mut o = ScanOrchestrator::new(Mode::SingleShot, 3, 20);
    o.start();
    assert_eq!(
        o.page_fetched(page(20, &[1])),
        ScanAction::FetchPage { page: 2, page_size: 20 }
    );
    assert_eq!(o.page_fetched(page(20, &[])), ScanAction::Filter);
    let mut o = ScanOrchestrator::new(Mode::SingleShot, 3, 20);
    o.start();
    assert_eq!(o.page_fetched(page(19, &[1])), ScanAction::Filter);
    let mut o = ScanOrchestrator::new(Mode::SingleShot, 3, 20);
    o.start();
    assert_eq!(o.page_fetched(page(0, &[])), ScanAction::Filter);
}

#[test]
fn the_candidates_are_the_cheap_rows_in_order() {
    let mut o = ScanOrchestrator::new(Mode::SingleShot, 10, 20);
    o.start();
    o.page_fetched(MarketSecondaryResponse {
        total: 4,
        list: vec![row(4, "1.00"), row(9, "0.10"), row(2, "1.01"), row(1, "0.99")],
    });
    assert_eq!(o.filter(&prices(&[1, 2, 4])), ScanAction::Evaluate { first: 0, count: 2 });
    assert_eq!(o.candidate(0).unwrap().secondary_id, 4);
    assert_eq!(o.candidate(1).unwrap().secondary_id, 1);
    assert!(o.candidate(2).is_none());
}

#[test]
fn the_width_bounds_what_is_looked_at_at_once() {
    let mut o = ScanOrchestrator::new(Mode::SingleShot, 3, 20);
    o.start();
    o.page_fetched(page(5, &[1, 2, 3, 4, 5]));
    assert_eq!(o.filter(&prices(&[1, 2, 3, 4, 5])), ScanAction::Evaluate { first: 0, count: 3 });
    assert_eq!(o.current_phase(), Phase::Buying);
    assert_eq!(o.candidate_finished(nothing()), ScanAction::Evaluate { first: 3, count: 1 });
    assert_eq!(o.candidate_finished(nothing()), ScanAction::Evaluate { first: 4, count: 1 });
    assert_eq!(o.candidate_finished(nothing()), ScanAction::Wait);
    assert_eq!(o.candidate_finished(nothing()), ScanAction::Wait);
    assert_eq!(o.current_phase(), Phase::Buying);
    assert_eq!(o.collected().len(), 4);
    assert_eq!(o.candidate_finished(nothing()), ScanAction::Stop);
    assert_eq!(o.current_phase(), Phase::Terminated);
    assert_eq!(o.collected().len(), 5);
    assert_eq!(o.candidate_finished(nothing()), ScanAction::Ignored);
    assert_eq!(o.collected().len(), 5);
}

#[test]
fn fewer_candidates_than_the_width_are_all_begun() {
    let mut o = ScanOrchestrator::new(Mode::SingleShot, 10, 20);
    o.start();
    o.page_fetched(page(2, &[1, 2]));
    assert_eq!(o.filter(&prices(&[1, 2])), ScanAction::Evaluate { first: 0, count: 2 });
    assert_eq!(o.candidate_finished(nothing()), ScanAction::Wait);
    assert_eq!(o.candidate_finished(nothing()), ScanAction::Stop);
}

#[test]
fn a_continuous_scan_begins_again_after_the_cycle() {
    let mut o = ScanOrchestrator::new(Mode::Continuous, 3, 20);
    o.start();
    o.page_fetched(page(1, &[1]));
    assert_eq!(o.filter(&prices(&[1])), ScanAction::Evaluate { first: 0, count: 1 });
    assert_eq!(
        o.candidate_finished(nothing()),
        ScanAction::FetchPage { page: 1, page_size: 20 }
    );
    assert_eq!(o.current_phase(), Phase::Scanning);
    assert_eq!(o.collected().len(), 1);
    o.page_fetched(page(1, &[2]));
    assert_eq!(o.filter(&prices(&[2])), ScanAction::Evaluate { first: 0, count: 1 });
    assert_eq!(o.candidate(0).unwrap().secondary_id, 2);
    assert!(o.candidate(1).is_none());
    assert!(o.collected().is_empty());
}

#[test]
fn a_failed_purchase_does_not_stop_the_scan() {
    let mut o = ScanOrchestrator::new(Mode::Continuous, 1, 20);
    o.start();
    o.page_fetched(page(2, &[1, 2]));
    assert_eq!(o.filter(&prices(&[1, 2])), ScanAction::Evaluate { first: 0, count: 1 });
    let failed = Outcome::PurchaseFailed {
        error: cardahoy::api::ApiError::Rejected {
            code: "100021".to_string(),
            message: "sold".to_string(),
        },
    };
    assert_eq!(o.candidate_finished(failed), ScanAction::Evaluate { first: 1, count: 1 });
    let failed = Outcome::FetchFailed {
        error: cardahoy::api::ApiError::Transport { message: "timed out".to_string() },
    };
    assert_eq!(
        o.candidate_finished(failed),
        ScanAction::FetchPage { page: 1, page_size: 20 }
    );
    assert_eq!(o.current_phase(), Phase::Scanning);
    assert!(matches!(o.collected()[0], Outcome::PurchaseFailed { .. }));
    assert!(matches!(o.collected()[1], Outcome::FetchFailed { .. }));
}

#[test]
fn without_a_cheap_row_the_cycle_ends() {
    let mut o = ScanOrchestrator::new(Mode::Continuous, 3, 20);
    o.start();
    o.page_fetched(page(1, &[1]));
    assert_eq!(o.filter(&prices(&[])), ScanAction::FetchPage { page: 1, page_size: 20 });
    assert_eq!(o.current_phase(), Phase::Scanning);
    let mut o = ScanOrchestrator::new(Mode::SingleShot, 3, 20);
    o.start();
    o.page_fetched(page(0, &[]));
    assert_eq!(o.filter(&prices(&[1])), ScanAction::Stop);
    assert_eq!(o.current_phase(), Phase::Terminated);
}

#[test]
fn a_page_that_cannot_be_fetched_ends_the_cycle_only() {
    let mut o = ScanOrchestrator::new(Mode::Continuous, 3, 2);
    o.start();
    o.page_fetched(page(5, &[1, 2]));
    assert_eq!(o.page_failed(), ScanAction::FetchPage { page: 1, page_size: 2 });
    assert_eq!(o.current_phase(), Phase::Scanning);
    assert_eq!(o.page_fetched(page(1, &[7])), ScanAction::Filter);
    assert_eq!(o.filter(&prices(&[1, 2, 7])), ScanAction::Evaluate { first: 0, count: 1 });
    assert_eq!(o.candidate(0).unwrap().secondary_id, 7);
    let mut o = ScanOrchestrator::new(Mode::SingleShot, 3, 2);
    o.start();
    assert_eq!(o.page_failed(), ScanAction::Stop);
    assert_eq!(o.current_phase(), Phase::Terminated);
}

#[test]
fn a_stop_takes_effect_after_the_cycle() {
    let mut o = ScanOrchestrator::new(Mode::Continuous, 3, 20);
    o.start();
    o.page_fetched(page(2, &[1, 2]));
    o.filter(&prices(&[1, 2]));
    o.cancel();
    assert_eq!(o.current_phase(), Phase::Buying);
    assert_eq!(o.candidate_finished(nothing()), ScanAction::Wait);
    assert_eq!(o.candidate_finished(nothing()), ScanAction::Stop);
    assert_eq!(o.current_phase(), Phase::Terminated);
    assert_eq!(o.collected().len(), 2);
}

#[test]
fn a_stop_before_the_start_terminates_at_once() {
    let mut o = ScanOrchestrator::new(Mode::Continuous, 3, 20);
    o.cancel();
    assert_eq!(o.current_phase(), Phase::Terminated);
    assert_eq!(o.start(), ScanAction::Ignored);
}

#[test]
fn what_does_not_belong_to_the_phase_is_ignored() {
    let mut o = ScanOrchestrator::new(Mode::Continuous, 3, 20);
    assert_eq!(o.page_fetched(page(1, &[1])), ScanAction::Ignored);
    assert_eq!(o.page_failed(), ScanAction::Ignored);
    assert_eq!(o.filter(&prices(&[1])), ScanAction::Ignored);
    assert_eq!(o.candidate_finished(nothing()), ScanAction::Ignored);
    assert_eq!(o.current_phase(), Phase::Idle);
    assert!(o.collected().is_empty());
    o.start();
    assert_eq!(o.filter(&prices(&[1])), ScanAction::Ignored);
    assert_eq!(o.candidate_finished(nothing()), ScanAction::Ignored);
    assert_eq!(o.setup_failed(), ScanAction::Ignored);
    assert_eq!(o.current_phase(), Phase::Scanning);
}
