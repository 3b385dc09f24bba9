use cardahoy::api::ApiError;
use cardahoy::engine::{BuyDecisionEngine, Evaluation, Outcome};
use cardahoy::decimal::{Decimal, NumericError};
use cardahoy::price_table::PriceTable;
use cardahoy::market_home::{AccumulateTrait, CardInformation, MarketHomeResponse};
use cardahoy::market_secondary::Secondary;
use cardahoy::nft::{init_nft_card_map, CatalogError, NftCardCategory, NftCardMap};
use cardahoy::nft::{get_nft_card_category, NftCardId};
use cardahoy::store::{
    cards_by_faction, categories_of, category_of, color_of, colors_of, full_list_query,
    neutral_filters, only_category, Store, CARD_FAN_OUT, SCAN_FAN_OUT,
};
use cardahoy::strategy::gold_pairs;
use cardahoy::nft::NftCardColor;
use cardahoy::utils::Config;

fn catalog() -> NftCardMap {
    let mut map = NftCardMap::new();
    init_nft_card_map(&mut map);
    map
}

fn store(faction: &[&str]) -> Store {
    let config = Config {
        client_app_id: String::new(),
        authorization: String::new(),
        cookies: String::new(),
        user_agent: String::new(),
        faction: faction.iter().map(|s| s.to_string()).collect(),
        rarity: vec![],
        foil: vec![],
    };
    Store::new(config, "Ammo Crate,5.00\n", &catalog()).unwrap()
}

fn candidate(id: u32, floor: &str) -> Secondary {
    Secondary {
        volume: 0,
        quantity: 1,
        secondary_id: id,
        secondary_name: "Ammo Crate".to_string(),
        nft_name: String::new(),
        image: String::new(),
        chain_nft_id: 12,
        floor_price: floor.to_string(),
        price_unity: "USDT".to_string(),
    }
}

fn offer(handle: &str, sale_price: &str, level: u32) -> CardInformation {
    CardInformation {
        chain_nft_id: 12,
        amount: 1,
        price_unity: "USDT".to_string(),
        priority_trait1: "1".to_string(),
        accumulate_trait: AccumulateTrait { name: "EXP".to_string(), value: level },
        nft_type: 0,
        image: String::new(),
        sale_price: sale_price.to_string(),
        token_id: "1".to_string(),
        nft_name: "card".to_string(),
        priority_trait_2: String::new(),
        sale_aggregator_number: handle.to_string(),
        metadata_list: vec![],
    }
}

#[test]
fn the_names_of_the_settings_stand_for_factions() {
    assert_eq!(category_of("Neutral"), NftCardCategory::Neutral);
    assert_eq!(category_of("Zombie"), NftCardCategory::Zombie);
    assert_eq!(category_of("Dragon"), NftCardCategory::Dragon);
    assert_eq!(category_of("Mech"), NftCardCategory::Mech);
    assert_eq!(category_of("Animal"), NftCardCategory::Animal);
    assert_eq!(category_of("Plant"), NftCardCategory::Plant);
    assert_eq!(category_of("plant"), NftCardCategory::Neutral);
    assert_eq!(category_of(""), NftCardCategory::Neutral);
    let set = categories_of(&vec!["Plant".to_string(), "Mech".to_string(), "Plant".to_string()]);
    assert!(set.contains(NftCardCategory::Plant));
    assert!(set.contains(NftCardCategory::Mech));
    assert!(!set.contains(NftCardCategory::Neutral));
    assert!(!set.contains(NftCardCategory::Animal));
    assert!(categories_of(&vec![]).is_empty());
    assert!(categories_of(&vec!["?".to_string()]).contains(NftCardCategory::Neutral));
}

#[test]
fn a_foil_and_a_rarity_stand_for_a_colour() {
    assert_eq!(color_of("Regular", "Common"), NftCardColor::White);
    assert_eq!(color_of("Regular", "Rare"), NftCardColor::Blue);
    assert_eq!(color_of("Regular", "Epic"), NftCardColor::Purple);
    assert_eq!(color_of("Regular", "Legendary"), NftCardColor::Orange);
    assert_eq!(color_of("Gold", "Common"), NftCardColor::WhiteGold);
    assert_eq!(color_of("Gold", "Rare"), NftCardColor::BlueGold);
    assert_eq!(color_of("Gold", "Epic"), NftCardColor::PurpleGold);
    assert_eq!(color_of("Gold", "Legendary"), NftCardColor::OrangeGold);
    assert_eq!(color_of("Gold", "Mythic"), NftCardColor::White);
    assert_eq!(color_of("Shiny", "Rare"), NftCardColor::White);
    assert_eq!(color_of("", ""), NftCardColor::White);
    let set = colors_of(
        &vec!["Regular".to_string(), "Gold".to_string()],
        &vec!["Rare".to_string(), "Epic".to_string()],
    );
    for c in [
        NftCardColor::Blue,
        NftCardColor::Purple,
        NftCardColor::BlueGold,
        NftCardColor::PurpleGold,
    ] {
        assert!(set.contains(c));
    }
    for c in [
        NftCardColor::White,
        NftCardColor::WhiteGold,
        NftCardColor::Orange,
        NftCardColor::OrangeGold,
    ] {
        assert!(!set.contains(c));
    }
    assert!(colors_of(&vec!["Gold".to_string()], &vec![]).is_empty());
    assert!(colors_of(&vec![], &vec!["Rare".to_string()]).is_empty());
}

#[test]
fn the_question_of_a_scan_asks_for_all_selected_cards_at_once() {
    let store = store(&["Neutral"]);
    assert_eq!(store.cards_number, 42);
    let query = store.scan_category_cards(None);
    assert_eq!(query.chain_nft_id, 12);
    assert_eq!(query.page_number, 1);
    assert_eq!(query.page_size, 42);
    assert_eq!(query.sort_type, 0);
    assert_eq!(query.discrete_list.len(), 5);
    assert_eq!(query.discrete_list[1].filter_name, "Faction");
    assert_eq!(query.discrete_list[1].value_id_list, vec!["Neutral".to_string()]);
    let query = store.scan_category_cards(Some(vec![]));
    assert_eq!(query.page_size, 42);
    assert!(query.discrete_list.is_empty());
    assert_eq!(store.discrete_list.len(), 5);
}

#[test]
fn the_question_for_the_offers_of_a_card() {
    let query = store(&[]).scan_card_home(320);
    assert_eq!(query.coin_id, 1);
    assert_eq!(query.page_number, 1);
    assert_eq!(query.page_size, 20);
    assert_eq!(query.first_category_id, 12);
    assert_eq!(query.second_category_id, 320);
    assert_eq!(query.sort_type, 4);
    assert_eq!(query.continuity_list.len(), 1);
    assert_eq!(query.continuity_list[0].filter_name, "Level");
}

#[test]
fn the_filters_for_the_common_neutral_cards() {
    let query = store(&["Mech"]).scan_neutrals();
    assert_eq!((query.chain_nft_id, query.page_number, query.page_size, query.sort_type), (12, 1, 36, 0));
    assert_eq!(query.discrete_list.len(), 5);
    assert_eq!(query.discrete_list[1].value_id_list, vec!["Neutral".to_string()]);
    let list = neutral_filters();
    let names: Vec<&str> = list.iter().map(|d| d.filter_name.as_str()).collect();
    assert_eq!(names, vec!["Type", "Faction", "Rarity", "Foil", "Source"]);
    assert!(list[0].value_id_list.is_empty());
    assert_eq!(list[1].value_id_list, vec!["Neutral".to_string()]);
    assert_eq!(list[2].value_id_list, vec!["Common".to_string()]);
    assert_eq!(list[3].value_id_list, vec!["Regular".to_string(), "Gold".to_string()]);
    assert_eq!(list[3].filter_id_list, vec!["Regular".to_string(), "Gold".to_string()]);
    assert!(list[4].value_id_list.is_empty());
    assert_eq!(list[2].filter_value_list.len(), 4);
}

#[test]
fn the_question_for_the_full_list() {
    assert_eq!(full_list_query().page_size, 222);
    let query = store(&["Mech"]).scan_cards_full_secondary();
    assert_eq!(query.chain_nft_id, 12);
    assert_eq!(query.page_number, 1);
    assert_eq!(query.page_size, 222);
    assert_eq!(query.sort_type, 1);
    assert_eq!(query.discrete_list.len(), 5);
    for choice in query.discrete_list.iter() {
        assert!(choice.value_id_list.is_empty());
        assert!(choice.filter_id_list.is_empty());
    }
    assert_eq!(query.discrete_list[4].filter_name, "Source");
}

#[test]
fn the_cards_that_are_scanned_one_by_one() {
    assert_eq!(cards_by_faction(&catalog()).unwrap().len(), 222);
    let ids = store(&[]).scan_cards_full_home(&catalog()).unwrap();
    assert_eq!(ids.len(), 222);
    let order = [
        NftCardCategory::Animal,
        NftCardCategory::Dragon,
        NftCardCategory::Mech,
        NftCardCategory::Plant,
        NftCardCategory::Zombie,
        NftCardCategory::Neutral,
    ];
    let mut expected: Vec<NftCardId> = Vec::new();
    for category in order {
        expected.extend(NftCardId::all().into_iter().filter(|id| get_nft_card_category(*id) == category));
    }
    assert_eq!(ids, expected);
    assert_eq!(get_nft_card_category(ids[0]), NftCardCategory::Animal);
    assert_eq!(get_nft_card_category(ids[36]), NftCardCategory::Dragon);
    assert_eq!(get_nft_card_category(ids[221]), NftCardCategory::Neutral);
    assert_eq!(cards_by_faction(&NftCardMap::new()).unwrap_err(), CatalogError::NotReady);
    assert_eq!(
        store(&[]).scan_cards_full_home(&NftCardMap::new()).unwrap_err(),
        CatalogError::NotReady
    );
    let set = only_category(NftCardCategory::Mech);
    assert!(set.contains(NftCardCategory::Mech));
    assert!(!set.contains(NftCardCategory::Dragon));
}

fn prices(entries: &[(u32, &str)]) -> PriceTable {
    let mut table = PriceTable::new();
    for (id, price) in entries {
        table.insert(*id, Decimal::parse(price).unwrap());
    }
    table
}

#[test]
fn a_candidate_is_held_against_its_reference_price() {
    let engine = BuyDecisionEngine::new(3);
    let table = prices(&[(320, "3.00")]);
    let fetched = Ok(MarketHomeResponse { list: vec![offer("H1", "9.00", 3)] });
    let evaluation = engine.evaluate_candidate(&candidate(320, "3.00"), &table, fetched);
    assert!(matches!(evaluation, Evaluation::Attempt { ref listing_handle, ref price }
        if listing_handle == "H1" && price == "9.00"));
    let fetched = Ok(MarketHomeResponse { list: vec![offer("H1", "9.01", 3)] });
    let evaluation = engine.evaluate_candidate(&candidate(320, "3.00"), &table, fetched);
    assert!(matches!(evaluation, Evaluation::Done(Outcome::NoQualifyingListing)));
    let fetched = Ok(MarketHomeResponse { list: vec![offer("H1", "9.00", 4)] });
    let evaluation = engine.evaluate_candidate(&candidate(320, "3.00"), &table, fetched);
    assert!(matches!(
        evaluation,
        Evaluation::Done(Outcome::SkippedTooHighLevel { level: 4 })
    ));
    let fetched = Ok(MarketHomeResponse { list: vec![offer("H1", "9.00", 4)] });
    let evaluation =
        BuyDecisionEngine::new(u32::MAX).evaluate_candidate(&candidate(320, "3.00"), &table, fetched);
    assert!(matches!(evaluation, Evaluation::Attempt { .. }));
}

#[test]
fn the_floor_price_of_the_row_has_no_say_in_the_second_look() {
    let engine = BuyDecisionEngine::new(3);
    let table = prices(&[(320, "3.00")]);
    for floor in ["2.00", "0.01", "3.00", "0", "cheap", ""] {
        let fetched = Ok(MarketHomeResponse { list: vec![offer("H1", "9.00", 3)] });
        let evaluation = engine.evaluate_candidate(&candidate(320, floor), &table, fetched);
        assert!(matches!(evaluation, Evaluation::Attempt { ref listing_handle, .. }
            if listing_handle == "H1"));
        let fetched = Ok(MarketHomeResponse { list: vec![offer("H1", "9.03", 3)] });
        let evaluation = engine.evaluate_candidate(&candidate(320, floor), &table, fetched);
        assert!(matches!(evaluation, Evaluation::Done(Outcome::NoQualifyingListing)));
    }
}

#[test]
fn a_candidate_without_a_reference_price_is_not_bought() {
    let engine = BuyDecisionEngine::new(3);
    let table = prices(&[(500, "3.00")]);
    let fetched = Ok(MarketHomeResponse { list: vec![offer("H1", "0.01", 1)] });
    let evaluation = engine.evaluate_candidate(&candidate(320, "3.00"), &table, fetched);
    assert!(matches!(evaluation, Evaluation::Done(Outcome::NoQualifyingListing)));
    let fetched = Err(ApiError::RetriesExhausted);
    let evaluation = engine.evaluate_candidate(&candidate(320, "3.00"), &table, fetched);
    assert!(matches!(
        evaluation,
        Evaluation::Done(Outcome::FetchFailed { error: ApiError::RetriesExhausted })
    ));
}

#[test]
fn a_candidate_without_offers_is_left() {
    let engine = BuyDecisionEngine::new(3);
    let table = prices(&[(320, "3.00")]);
    for floor in ["3.00", "cheap"] {
        let fetched = Ok(MarketHomeResponse { list: vec![] });
        let evaluation = engine.evaluate_candidate(&candidate(320, floor), &table, fetched);
        assert!(matches!(evaluation, Evaluation::Done(Outcome::NoQualifyingListing)));
    }
    let fetched = Err(ApiError::NoData);
    let evaluation = engine.evaluate_candidate(&candidate(320, "3.00"), &table, fetched);
    assert!(matches!(
        evaluation,
        Evaluation::Done(Outcome::FetchFailed { error: ApiError::NoData })
    ));
}

#[test]
fn by_the_rule_of_the_floor_price_a_row_is_held_against_its_own_floor() {
    let engine = BuyDecisionEngine::new(3);
    let fetched = Ok(MarketHomeResponse { list: vec![offer("h-1", "9.00", 3)] });
    let evaluation = engine.evaluate_at_floor_price(&candidate(320, "3.00"), fetched);
    assert!(matches!(evaluation, Evaluation::Attempt { ref listing_handle, ref price }
        if listing_handle == "h-1" && price == "9.00"));
    let fetched = Ok(MarketHomeResponse { list: vec![offer("h-1", "9.00", 3)] });
    let evaluation = engine.evaluate_at_floor_price(&candidate(320, "2.99"), fetched);
    assert!(matches!(evaluation, Evaluation::Done(Outcome::NoQualifyingListing)));
    let fetched = Ok(MarketHomeResponse { list: vec![offer("h-1", "9.00", 4)] });
    let evaluation = engine.evaluate_at_floor_price(&candidate(320, "3.00"), fetched);
    assert!(matches!(
        evaluation,
        Evaluation::Done(Outcome::SkippedTooHighLevel { level: 4 })
    ));
    let fetched = Ok(MarketHomeResponse { list: vec![offer("h-1", "9.00", 4)] });
    let evaluation =
        BuyDecisionEngine::new(u32::MAX).evaluate_at_floor_price(&candidate(320, "3.00"), fetched);
    assert!(matches!(evaluation, Evaluation::Attempt { .. }));
}

#[test]
fn by_the_rule_of_the_floor_price_a_floor_that_is_no_amount_ends_the_matter() {
    let engine = BuyDecisionEngine::new(3);
    let fetched = Ok(MarketHomeResponse { list: vec![offer("h-1", "0.01", 1)] });
    let evaluation = engine.evaluate_at_floor_price(&candidate(320, "cheap"), fetched);
    assert!(matches!(
        evaluation,
        Evaluation::Done(Outcome::UnreadableListing { reason: NumericError::Malformed })
    ));
    let fetched = Err(ApiError::RetriesExhausted);
    let evaluation = engine.evaluate_at_floor_price(&candidate(320, "cheap"), fetched);
    assert!(matches!(
        evaluation,
        Evaluation::Done(Outcome::FetchFailed { error: ApiError::RetriesExhausted })
    ));
    let fetched = Err(ApiError::NoData);
    let evaluation = engine.evaluate_at_floor_price(&candidate(320, "3.00"), fetched);
    assert!(matches!(
        evaluation,
        Evaluation::Done(Outcome::FetchFailed { error: ApiError::NoData })
    ));
}

#[test]
fn the_plans_of_the_scans() {
    let store = store(&["Mech"]);
    let plan = store.filter_scan();
    assert_eq!(plan.width, 3);
    assert_eq!(plan.width, SCAN_FAN_OUT);
    assert_eq!(CARD_FAN_OUT, 10);
    assert_eq!(plan.engine.max_level, 3);
    assert_eq!((plan.query.page_number, plan.query.page_size, plan.query.sort_type), (1, 36, 0));
    assert_eq!(plan.query.discrete_list.len(), 5);
    assert_eq!(plan.query.discrete_list[1].value_id_list, vec!["Mech".to_string()]);
    let plan = store.custom_scan_full();
    assert_eq!(plan.width, 3);
    assert_eq!(plan.engine.max_level, 3);
    assert_eq!(plan.query.page_size, 36);
    assert_eq!(plan.query.discrete_list[1].value_id_list, vec!["Mech".to_string()]);
    assert!(plan.query.discrete_list[0].value_id_list.is_empty());
    let plan = store.buy_nft_strategy_full();
    assert_eq!(plan.width, 3);
    assert_eq!(plan.engine.max_level, u32::MAX);
    assert_eq!(plan.query.page_size, 36);
    assert_eq!(plan.query.discrete_list[1].value_id_list, vec!["Neutral".to_string()]);
    assert_eq!(plan.query.discrete_list[2].value_id_list, vec!["Common".to_string()]);
}

#[test]
fn the_cards_of_the_rules_of_the_averages() {
    let store = store(&[]);
    assert_eq!(store.buy_nft_strategy_1(), gold_pairs());
    let neutrals = store.buy_nft_strategy_with_five_avg(&catalog()).unwrap();
    assert_eq!(neutrals.len(), 42);
    for id in neutrals.iter() {
        assert_eq!(get_nft_card_category(*id), NftCardCategory::Neutral);
    }
    assert_eq!(
        store.buy_nft_strategy_with_five_avg(&NftCardMap::new()).unwrap_err(),
        CatalogError::NotReady
    );
}

fn store_with(prices_csv: &str) -> Store {
    let config = Config {
        client_app_id: String::new(),
        authorization: String::new(),
        cookies: String::new(),
        user_agent: String::new(),
        faction: vec![],
        rarity: vec![],
        foil: vec![],
    };
    Store::new(config, prices_csv, &catalog()).unwrap()
}

#[test]
fn a_candidate_of_a_scan_is_bought_up_to_the_highest_level() {
    let store = store(&[]);
    let fetched = Ok(MarketHomeResponse { list: vec![offer("h-1", "9.00", 3)] });
    let evaluation = store.buy_cheap_cards(&candidate(320, "3.00"), fetched);
    assert!(matches!(evaluation, Evaluation::Attempt { .. }));
    let fetched = Ok(MarketHomeResponse { list: vec![offer("h-1", "9.00", 4)] });
    let evaluation = store.buy_cheap_cards(&candidate(320, "3.00"), fetched);
    assert!(matches!(
        evaluation,
        Evaluation::Done(Outcome::SkippedTooHighLevel { level: 4 })
    ));
    let fetched = Ok(MarketHomeResponse { list: vec![] });
    let evaluation = store.buy_cheap_cards(&candidate(320, "3.00"), fetched);
    assert!(matches!(evaluation, Evaluation::Done(Outcome::NoQualifyingListing)));
}

#[test]
fn an_offer_at_the_reference_price_is_bought_whatever_the_floor_was() {
    let store = store_with("Ammo Crate,3.00\n");
    for floor in ["3.00", "2.00", "0.50"] {
        let row = candidate(320, floor);
        let kept = store.find_cheap_cards(cardahoy::market_secondary::MarketSecondaryResponse {
            total: 1,
            list: vec![row.clone()],
        });
        assert_eq!(kept.len(), 1);
        let fetched = Ok(MarketHomeResponse { list: vec![offer("H1", "9.00", 3)] });
        match store.buy_cheap_cards(&kept[0], fetched) {
            Evaluation::Attempt { listing_handle, price } => {
                assert_eq!(listing_handle, "H1");
                assert_eq!(price, "9.00");
            }
            other => panic!("{:?}", other),
        }
    }
}

#[test]
fn an_offer_above_the_reference_price_is_left_whatever_the_floor_was() {
    let store = store_with("Ammo Crate,3.00\n");
    for floor in ["3.00", "2.00", "9.99"] {
        let fetched = Ok(MarketHomeResponse { list: vec![offer("H1", "9.01", 3)] });
        let evaluation = store.buy_cheap_cards(&candidate(320, floor), fetched);
        assert!(matches!(evaluation, Evaluation::Done(Outcome::NoQualifyingListing)));
    }
    let fetched = Ok(MarketHomeResponse { list: vec![offer("H1", "8.99", 3)] });
    let evaluation = store.buy_cheap_cards(&candidate(320, "1.00"), fetched);
    assert!(matches!(evaluation, Evaluation::Attempt { .. }));
}

#[test]
fn a_row_of_a_card_that_is_not_traded_is_not_bought() {
    let store = store_with("Ammo Crate,3.00\n");
    let fetched = Ok(MarketHomeResponse { list: vec![offer("H1", "0.01", 1)] });
    let evaluation = store.buy_cheap_cards(&candidate(500, "0.01"), fetched);
    assert!(matches!(evaluation, Evaluation::Done(Outcome::NoQualifyingListing)));
    let fetched = Err(ApiError::RetriesExhausted);
    let evaluation = store.buy_cheap_cards(&candidate(500, "0.01"), fetched);
    assert!(matches!(
        evaluation,
        Evaluation::Done(Outcome::FetchFailed { error: ApiError::RetriesExhausted })
    ));
    let fetched = Err(ApiError::NoData);
    let evaluation = store.buy_cheap_cards(&candidate(320, "0.01"), fetched);
    assert!(matches!(
        evaluation,
        Evaluation::Done(Outcome::FetchFailed { error: ApiError::NoData })
    ));
}

#[test]
fn the_gold_offers_of_a_pair() {
    let store = store(&[]);
    let plain = MarketHomeResponse {
        list: (0..10).map(|_| offer("h", "2", 1)).collect(),
    };
    let mut cheap = offer("g-1", "100", 1);
    cheap.metadata_list.push(cardahoy::market_home::MetadataList {
        name: "Price/EXP".to_string(),
        value: "2.19".to_string(),
        if_accumulate: None,
    });
    let gold = MarketHomeResponse { list: vec![offer("g-0", "0.01", 1), cheap] };
    assert_eq!(store.process_card_gold(&plain, &gold), Ok(vec![1]));
}

#[test]
fn a_candidate_is_judged_by_the_plan_of_its_scan() {
    let store = store_with("Ammo Crate,3.00\n");
    // ten for four units of experience is two and a half a unit
    let offers = || Ok(MarketHomeResponse { list: vec![offer("H1", "10.0", 4)] });
    let plan = store.filter_scan();
    assert!(matches!(
        store.judge(&plan, &candidate(320, "2.00"), offers()),
        Evaluation::Done(Outcome::SkippedTooHighLevel { level: 4 })
    ));
    let plan = store.buy_nft_strategy_full();
    match store.judge(&plan, &candidate(320, "2.00"), offers()) {
        Evaluation::Attempt { listing_handle, price } => {
            assert_eq!(listing_handle, "H1");
            assert_eq!(price, "10.0");
        }
        other => panic!("{:?}", other),
    }
    let mut plan = store.custom_scan_full();
    plan.engine = BuyDecisionEngine::new(4);
    assert!(matches!(
        store.judge(&plan, &candidate(320, "2.00"), offers()),
        Evaluation::Attempt { .. }
    ));
    let dear = Ok(MarketHomeResponse { list: vec![offer("H1", "12.04", 4)] });
    assert!(matches!(
        store.judge(&plan, &candidate(320, "2.00"), dear),
        Evaluation::Done(Outcome::NoQualifyingListing)
    ));
    assert!(matches!(
        store.judge(&plan, &candidate(500, "2.00"), offers()),
        Evaluation::Done(Outcome::NoQualifyingListing)
    ));
    assert!(matches!(
        store.judge(&plan, &candidate(320, "2.00"), Err(ApiError::NoData)),
        Evaluation::Done(Outcome::FetchFailed { error: ApiError::NoData })
    ));
}
