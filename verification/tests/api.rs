use cardahoy::analyze::{analyze_sell_history_query, analyze_trend_query};
use cardahoy::api::{
    after_response, buy_request, open_envelope, ApiError, BuyNftParams, Endpoint,
    PostStep, ResponseWrapper, POST_MAX_RETRY,
};
use cardahoy::buy_nft_detail::buy_nft_detail_query;
use cardahoy::filter::{get_discrete_filter, Continuity, Discrete, DiscreteFilter, DiscreteFilterValue};
use cardahoy::market_home::{market_home_query, MarketHomeSortType};
use cardahoy::market_secondary::market_secondary_query;
use cardahoy::nft::{NftId, NftSortType};
use cardahoy::payment::payment_type_query;
use cardahoy::sell::{sell_nft_detail_query, sell_request, SellNftParams};
use cardahoy::text::{starts_with, str_eq};
use cardahoy::utils::timestamp;

fn envelope(code: &str, msg: &str, data: Option<u32>) -> ResponseWrapper<u32> {
    ResponseWrapper { msg: msg.to_string(), data, code: code.to_string() }
}

#[test]
fn an_answer_that_is_served_is_read() {
    assert_eq!(after_response(0, 200, "{\"code\":\"000000\"}"), PostStep::Read);
    assert_eq!(after_response(4, 200, ""), PostStep::Read);
    assert_eq!(after_response(9, 200, "<htm"), PostStep::Read);
    assert_eq!(after_response(0, 200, " <html>"), PostStep::Read);
    assert_eq!(after_response(0, 200, "<HTML>"), PostStep::Read);
}

#[test]
fn a_failure_of_the_service_is_tried_again_after_a_second() {
    for attempt in 0..4 {
        assert_eq!(
            after_response(attempt, 503, ""),
            PostStep::Retry { delay_seconds: 1, attempt: attempt + 1 }
        );
        assert_eq!(
            after_response(attempt, 200, "<html><body>503</body></html>"),
            PostStep::Retry { delay_seconds: 1, attempt: attempt + 1 }
        );
    }
    assert_eq!(after_response(0, 404, "{}"), PostStep::Retry { delay_seconds: 1, attempt: 1 });
    assert_eq!(after_response(0, 201, "{}"), PostStep::Retry { delay_seconds: 1, attempt: 1 });
    assert_eq!(after_response(0, 200, "<html>"), PostStep::Retry { delay_seconds: 1, attempt: 1 });
}

#[test]
fn after_five_attempts_the_call_is_given_up() {
    assert_eq!(POST_MAX_RETRY, 4);
    assert_eq!(after_response(4, 503, ""), PostStep::GiveUp);
    assert_eq!(after_response(4, 200, "<html>"), PostStep::GiveUp);
    assert_eq!(after_response(5, 500, ""), PostStep::GiveUp);
    assert_eq!(after_response(u32::MAX, 500, ""), PostStep::GiveUp);
}

#[test]
fn an_envelope_that_reports_success_gives_what_it_holds() {
    assert_eq!(open_envelope(envelope("000000", "ok", Some(7))).unwrap(), 7);
}

#[test]
fn an_envelope_that_reports_failure_is_rejected() {
    match open_envelope(envelope("100000", "Not Logged", Some(7))) {
        Err(ApiError::Rejected { code, message }) => {
            assert_eq!(code, "100000");
            assert_eq!(message, "Not Logged");
        }
        other => panic!("{:?}", other),
    }
    assert!(matches!(
        open_envelope(envelope("", "", None)),
        Err(ApiError::Rejected { .. })
    ));
    assert!(matches!(
        open_envelope(envelope("0", "", Some(1))),
        Err(ApiError::Rejected { .. })
    ));
}

#[test]
fn an_envelope_without_data_is_an_error() {
    assert!(matches!(
        open_envelope(envelope("000000", "ok", None)),
        Err(ApiError::NoData)
    ));
}

#[test]
fn the_addresses_of_the_marketplace() {
    assert_eq!(
        Endpoint::BuyNftAsset.url(),
        "https://game.metalist.io/api/marketOperate/buyNFTAsset"
    );
    assert_eq!(
        Endpoint::GroundNftAsset.url(),
        "https://game.metalist.io/api/marketOperate/groundNFTAsset"
    );
    assert_eq!(
        Endpoint::MarketHome.url(),
        "https://game.metalist.io/api/marketQuery/queryMarketHome"
    );
    assert_eq!(
        Endpoint::MarketSecondary.url(),
        "https://game.metalist.io/api/marketQuery/queryMarketSecondary"
    );
    assert_eq!(
        Endpoint::CategoryList.url(),
        "https://game.metalist.io/api/marketQuery/queryCategoryList"
    );
    assert_eq!(
        Endpoint::PaymentTypeDetail.url(),
        "https://game.metalist.io/api/marketQuery/queryPaymentTypeDetail"
    );
    assert_eq!(
        Endpoint::SaleNftPriceRange.url(),
        "https://game.metalist.io/api/marketQuery/querySaleNftPriceRange"
    );
    assert_eq!(
        Endpoint::AnalyzeList.url(),
        "https://game.metalist.io/api/marketQuery/queryAnalyzeList"
    );
    assert_eq!(
        Endpoint::AnalyzeSellHistory.url(),
        "https://game.metalist.io/api/marketQuery/queryAnalyzeSellHistory"
    );
    assert_eq!(
        Endpoint::AnalyzeFloorPriceTrend.url(),
        "https://game.metalist.io/api/marketQuery/queryAnalyzeFloorPriceTrend"
    );
    assert_eq!(
        Endpoint::AnalyzeDealTrend.url(),
        "https://game.metalist.io/api/marketQuery/queryAnalyzeDealTrend"
    );
    assert_eq!(
        Endpoint::BuyNftDetail.url(),
        "https://game.metalist.io/api/marketQuery/queryBuyNftDetail"
    );
    assert_eq!(
        Endpoint::GameConfig.url(),
        "https://game.metalist.io/api/marketQuery/queryGameConfig"
    );
    assert_eq!(
        Endpoint::UserBalance.url(),
        "https://game.metalist.io/api/marketQuery/queryUserBalance"
    );
}

#[test]
fn a_buy_request_is_for_one_card_from_the_wallet() {
    let params = BuyNftParams::new("nonce".to_string(), 1700000000000, "handle-1");
    assert_eq!(params.nonce, "nonce");
    assert_eq!(params.amount, 1);
    assert_eq!(params.password, "");
    assert_eq!(params.payment_type, "Wallet");
    assert_eq!(params.req_timestamp, 1700000000000);
    assert_eq!(params.sale_aggregator_number, "handle-1");
}

#[test]
fn a_buy_request_made_now_has_a_fresh_nonce() {
    let before = timestamp();
    let first = buy_request("handle-1");
    let second = buy_request("handle-1");
    let after = timestamp();
    assert_eq!(first.sale_aggregator_number, "handle-1");
    assert_eq!(first.amount, 1);
    assert_eq!(first.payment_type, "Wallet");
    assert_ne!(first.nonce, second.nonce);
    assert!(before <= first.req_timestamp);
    assert!(first.req_timestamp <= second.req_timestamp);
    assert!(second.req_timestamp <= after);
    assert!(before > 1_600_000_000_000);
}

#[test]
fn a_nonce_is_hyphenated_lower_case_hexadecimal() {
    let nonce = sell_request("1.25".to_string(), "token".to_string()).nonce;
    let chars: Vec<char> = nonce.chars().collect();
    assert_eq!(chars.len(), 36);
    for (i, c) in chars.iter().enumerate() {
        if i == 8 || i == 13 || i == 18 || i == 23 {
            assert_eq!(*c, '-');
        } else {
            assert!(c.is_ascii_digit() || ('a'..='f').contains(c));
        }
    }
}

#[test]
fn a_sell_request_is_for_one_card_in_the_first_currency() {
    let params = SellNftParams::new("n".to_string(), 5, "1.25".to_string(), "token".to_string());
    assert_eq!(params.nonce, "n");
    assert_eq!(params.amount, 1);
    assert_eq!(params.password, "");
    assert_eq!(params.price, "1.25");
    assert_eq!(params.req_timestamp, 5);
    assert_eq!(params.token_id, "token");
    assert_eq!(params.coin_id, 1);
    assert_eq!(params.chain_nft_id, 12);
}

#[test]
fn a_sell_request_made_now_has_a_fresh_nonce() {
    let first = sell_request("1.25".to_string(), "token".to_string());
    let second = sell_request("1.25".to_string(), "token".to_string());
    assert_ne!(first.nonce, second.nonce);
    assert_eq!(first.price, "1.25");
    assert_eq!(first.token_id, "token");
    assert_eq!(first.amount, 1);
    assert_eq!(first.coin_id, 1);
    assert_eq!(first.chain_nft_id, 12);
    assert!(first.req_timestamp <= second.req_timestamp);
    assert!(first.req_timestamp > 1_600_000_000_000);
}

#[test]
fn the_question_for_an_items_offers() {
    let query = market_home_query(NftId::Cards, 320, 1, MarketHomeSortType::PriceExpAscending);
    assert_eq!(query.coin_id, 1);
    assert_eq!(query.page_number, 1);
    assert_eq!(query.page_size, 20);
    assert_eq!(query.first_category_id, 12);
    assert_eq!(query.second_category_id, 320);
    assert_eq!(query.sort_type, 4);
    assert_eq!(query.continuity_list.len(), 1);
    let level = &query.continuity_list[0];
    assert_eq!(level.filter_name, "Level");
    assert_eq!(
        (level.filter_id, level.start, level.step_size, level.end, level.max, level.min),
        (1, 1, 1, 10, 100, 1)
    );
}

#[test]
fn the_numbers_of_the_orders_of_offers() {
    assert_eq!(MarketHomeSortType::PriceExpAscending.to_wire_code(), 4);
    assert_eq!(MarketHomeSortType::PriceExpDescending.to_wire_code(), 5);
    assert_eq!(MarketHomeSortType::PriceAscending.to_wire_code(), 0);
    assert_eq!(MarketHomeSortType::PriceDescending.to_wire_code(), 1);
    assert_eq!(MarketHomeSortType::Latest.to_wire_code(), 3);
    assert_eq!(MarketHomeSortType::HonorPointsAscending.to_wire_code(), 6);
}

#[test]
fn the_question_for_the_summary_rows() {
    let filters = vec![Discrete::faction(vec!["Neutral".to_string()])];
    let query =
        market_secondary_query(NftId::Cards, 2, 222, NftSortType::PriceDescending, filters);
    assert_eq!(query.chain_nft_id, 12);
    assert_eq!(query.page_number, 2);
    assert_eq!(query.page_size, 222);
    assert_eq!(query.sort_type, 1);
    assert_eq!(query.discrete_list.len(), 1);
    assert_eq!(query.discrete_list[0].filter_name, "Faction");
}

#[test]
fn the_other_questions() {
    assert_eq!(payment_type_query().coin_id, 1);
    let query = sell_nft_detail_query(NftId::Cards, vec!["7".to_string()]);
    assert_eq!((query.chain_nft_id, query.coin_id), (12, 1));
    assert_eq!(query.token_ids, vec!["7".to_string()]);
    let query = analyze_sell_history_query(NftId::Boxes);
    assert_eq!(query.chain_nft_id, 13);
    assert_eq!(query.category_id, "");
    assert_eq!(query.time_range, None);
    let query = analyze_trend_query(NftId::Fragments);
    assert_eq!(query.chain_nft_id, 15);
    assert_eq!(query.category_id, "");
    assert_eq!(query.time_range, Some("7d".to_string()));
    assert_eq!(buy_nft_detail_query("h".to_string()).sale_aggregator_number, "h");
}

#[test]
fn the_level_filter() {
    let level = Continuity::level();
    assert_eq!(level.filter_name, "Level");
    assert_eq!(level.filter_id, 1);
    assert_eq!(level.start, 1);
    assert_eq!(level.step_size, 1);
    assert_eq!(level.end, 10);
    assert_eq!(level.max, 100);
    assert_eq!(level.min, 1);
}

fn names(list: &[DiscreteFilterValue]) -> Vec<(String, String)> {
    list.iter().map(|v| (v.value_name.clone(), v.value_id.clone())).collect()
}

fn same(list: &[&str]) -> Vec<(String, String)> {
    list.iter().map(|v| (v.to_string(), v.to_string())).collect()
}

#[test]
fn the_values_of_each_attribute() {
    assert_eq!(names(&get_discrete_filter(DiscreteFilter::Type)), same(&["Leaders", "Members"]));
    assert_eq!(
        names(&get_discrete_filter(DiscreteFilter::Faction)),
        same(&["Neutral", "Animal", "Plant", "Zombie", "Mech", "Dragon"])
    );
    assert_eq!(
        names(&get_discrete_filter(DiscreteFilter::Rarity)),
        same(&["Common", "Rare", "Epic", "Legendary"])
    );
    assert_eq!(names(&get_discrete_filter(DiscreteFilter::Foil)), same(&["Regular", "Gold"]));
    assert_eq!(
        names(&get_discrete_filter(DiscreteFilter::Source)),
        same(&["All", "Ahoy Box", "Ladder Chest", "Alchemy", "Reward", "Season Box"])
    );
}

#[test]
fn the_names_of_the_attributes() {
    assert_eq!(DiscreteFilter::Type.to_string(), "Type");
    assert_eq!(DiscreteFilter::Faction.to_string(), "Faction");
    assert_eq!(DiscreteFilter::Rarity.to_string(), "Rarity");
    assert_eq!(DiscreteFilter::Foil.to_string(), "Foil");
    assert_eq!(DiscreteFilter::Source.to_string(), "Source");
}

#[test]
fn a_choice_holds_the_attribute_its_values_and_what_was_chosen() {
    let chosen = vec!["Regular".to_string(), "Gold".to_string()];
    let choice = Discrete::foil(chosen.clone());
    assert_eq!(choice.filter_name, "Foil");
    assert_eq!(names(&choice.filter_value_list), same(&["Regular", "Gold"]));
    assert_eq!(choice.value_id_list, chosen);
    assert_eq!(choice.filter_id_list, chosen);
    let choice = Discrete::filter_type(vec![]);
    assert_eq!(choice.filter_name, "Type");
    assert_eq!(choice.filter_value_list.len(), 2);
    assert!(choice.value_id_list.is_empty());
    assert_eq!(Discrete::faction(vec![]).filter_name, "Faction");
    assert_eq!(Discrete::faction(vec![]).filter_value_list.len(), 6);
    assert_eq!(Discrete::rarity(vec![]).filter_name, "Rarity");
    assert_eq!(Discrete::rarity(vec![]).filter_value_list.len(), 4);
    assert_eq!(Discrete::source(vec!["Alchemy".to_string()]).filter_name, "Source");
    assert_eq!(
        Discrete::source(vec!["Alchemy".to_string()]).filter_id_list,
        vec!["Alchemy".to_string()]
    );
    let choice = Discrete::with(DiscreteFilter::Rarity, vec!["Epic".to_string()]);
    assert_eq!(choice.filter_name, "Rarity");
    assert_eq!(choice.value_id_list, vec!["Epic".to_string()]);
    let choice = Discrete::with_none(DiscreteFilter::Source);
    assert_eq!(choice.filter_name, "Source");
    assert_eq!(choice.filter_value_list.len(), 6);
    assert!(choice.value_id_list.is_empty());
    assert!(choice.filter_id_list.is_empty());
    let copy = choice.clone();
    assert_eq!(copy.filter_name, "Source");
    assert_eq!(copy.filter_value_list.len(), 6);
}

#[test]
fn a_value_has_the_name_shown_and_the_name_sent() {
    let value = DiscreteFilterValue::new("Ahoy Box", "ahoy-box");
    assert_eq!(value.value_name, "Ahoy Box");
    assert_eq!(value.value_id, "ahoy-box");
    let copy = value.clone();
    assert_eq!(copy.value_name, "Ahoy Box");
    assert_eq!(copy.value_id, "ahoy-box");
}

#[test]
fn text_is_compared_by_its_characters() {
    assert!(str_eq("", ""));
    assert!(str_eq("Price/EXP", "Price/EXP"));
    assert!(!str_eq("Price/EXP", "price/exp"));
    assert!(!str_eq("cn", "cn "));
    assert!(str_eq("弹药箱", "弹药箱"));
    assert!(starts_with("<html><body>", "<html>"));
    assert!(starts_with("<html>", "<html>"));
    assert!(starts_with("anything", ""));
    assert!(!starts_with("<htm", "<html>"));
    assert!(!starts_with("", "<html>"));
    assert!(!starts_with(" <html>", "<html>"));
    assert!(starts_with("弹药箱 (金)", "弹药箱"));
    assert!(!starts_with("弹药", "弹药箱"));
}
