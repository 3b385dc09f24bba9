use cardahoy::analyze::AnalyzeDealTrendNode;
use cardahoy::decimal::NumericError;
use cardahoy::market_home::{AccumulateTrait, CardInformation, MarketHomeResponse};
use cardahoy::market_secondary::Secondary;
use cardahoy::script::{
    card_line, card_lines, day_of, deal_trend_header, distinct_days, gold_name, group_by_day,
    pages_of, realtime_header, realtime_row, rows_of_day, thousandths_text, CardDealTrend,
    DatedTrend, ReportError,
};
use cardahoy::store::{secondary_table, secondary_table_header, secondary_table_rows};
use cardahoy::text::{followed_by, join, number_text};

fn row(id: u32, name: &str, floor: &str, quantity: u32, volume: u32) -> Secondary {
    Secondary {
        volume,
        quantity,
        secondary_id: id,
        secondary_name: name.to_string(),
        nft_name: "Cards".to_string(),
        image: String::new(),
        chain_nft_id: 12,
        floor_price: floor.to_string(),
        price_unity: "USDT".to_string(),
    }
}

fn offer(sale_price: &str, level: u32) -> CardInformation {
    CardInformation {
        chain_nft_id: 12,
        amount: 1,
        price_unity: "USDT".to_string(),
        priority_trait1: "1".to_string(),
        accumulate_trait: AccumulateTrait { name: "EXP".to_string(), value: level },
        nft_type: 0,
        image: String::new(),
        sale_price: sale_price.to_string(),
        token_id: "1".to_string(),
        nft_name: "card".to_string(),
        priority_trait_2: String::new(),
        sale_aggregator_number: "handle".to_string(),
        metadata_list: vec![],
    }
}

fn trend(card: u32, count: u32) -> CardDealTrend {
    CardDealTrend {
        name: card,
        max_value: "9".to_string(),
        total_value: "30".to_string(),
        avg_value: "5".to_string(),
        count,
        min_value: "1".to_string(),
    }
}

fn dated(day: &str, card: u32, count: u32) -> DatedTrend {
    DatedTrend { day: day.to_string(), trend: trend(card, count) }
}

#[test]
fn numbers_are_written_in_base_ten() {
    assert_eq!(number_text(0), "0");
    assert_eq!(number_text(7), "7");
    assert_eq!(number_text(10), "10");
    assert_eq!(number_text(320), "320");
    assert_eq!(number_text(1_000_000), "1000000");
    assert_eq!(number_text(4294967295), "4294967295");
    assert_eq!(number_text(u128::MAX), "340282366920938463463374607431768211455");
}

#[test]
fn text_is_joined() {
    assert_eq!(followed_by("Ammo Crate", "Gold"), "Ammo CrateGold");
    assert_eq!(followed_by("", ""), "");
    assert_eq!(join(&vec![], "\n"), "");
    assert_eq!(join(&vec!["a".to_string()], "\n"), "a");
    assert_eq!(join(&vec!["a".to_string(), "b".to_string(), String::new()], ", "), "a, b, ");
    assert_eq!(join(&vec!["a".to_string(), "b".to_string()], ""), "ab");
}

#[test]
fn the_pages_of_a_list() {
    assert_eq!(pages_of(0), 1);
    assert_eq!(pages_of(19), 1);
    assert_eq!(pages_of(20), 2);
    assert_eq!(pages_of(222), 12);
    assert_eq!(pages_of(u32::MAX), 214748365);
}

#[test]
fn the_lines_of_the_list_of_cards() {
    assert_eq!(gold_name("AmmoCrate"), "AmmoCrateGold");
    assert_eq!(card_line("AmmoCrate", 320), "AmmoCrate = 320,");
    assert_eq!(card_line("", 0), " = 0,");
    let plain = vec![row(320, "AmmoCrate", "1", 1, 1), row(500, "AlarmBot", "1", 1, 1)];
    let gold = vec![row(437, "AmmoCrate", "1", 1, 1)];
    let lines = card_lines(&plain, &gold);
    assert_eq!(lines, vec!["AmmoCrate = 320,", "AlarmBot = 500,", "AmmoCrateGold = 437,"]);
    assert_eq!(
        join(&lines, "\n"),
        "AmmoCrate = 320,\nAlarmBot = 500,\nAmmoCrateGold = 437,"
    );
    assert!(card_lines(&vec![], &vec![]).is_empty());
}

#[test]
fn the_day_of_a_moment_is_in_universal_time() {
    assert_eq!(day_of(0), Some("1970-01-01".to_string()));
    assert_eq!(day_of(86_399_999), Some("1970-01-01".to_string()));
    assert_eq!(day_of(86_400_000), Some("1970-01-02".to_string()));
    assert_eq!(day_of(947_638_923_004), Some("2000-01-12".to_string()));
    assert_eq!(day_of(1_709_942_400_000), Some("2024-03-09".to_string()));
    assert_eq!(day_of(u64::MAX), None);
    assert_eq!(day_of(i64::MAX as u64), None);
}

#[test]
fn a_trend_takes_the_figures_of_its_node() {
    let node = AnalyzeDealTrendNode {
        max_value: "9.5".to_string(),
        total_value: "30".to_string(),
        timestamp: 1_709_942_400_000,
        avg_value: "5".to_string(),
        count: 6,
        min_value: "1.5".to_string(),
    };
    let trend = CardDealTrend::from_node(320, &node);
    assert_eq!(trend.name, 320);
    assert_eq!(trend.max_value, "9.5");
    assert_eq!(trend.total_value, "30");
    assert_eq!(trend.avg_value, "5");
    assert_eq!(trend.count, 6);
    assert_eq!(trend.min_value, "1.5");
    assert_eq!(
        trend.row().unwrap(),
        vec!["弹药箱", "6", "5", "1.5", "9.5", "30"]
    );
    assert_eq!(CardDealTrend::from_node(1, &node).row(), None);
    assert_eq!(
        deal_trend_header(),
        vec!["名字", "成交数量", "平均成交额", "最低成交额", "最高成交额", "总成交额"]
    );
}

#[test]
fn the_trade_is_sorted_into_one_sheet_for_every_day() {
    let entries = vec![
        dated("2024-03-09", 320, 1),
        dated("2024-03-08", 320, 2),
        dated("2024-03-09", 500, 3),
        dated("2024-03-10", 500, 4),
        dated("2024-03-08", 437, 5),
        dated("2024-03-09", 437, 6),
    ];
    assert_eq!(distinct_days(&entries), vec!["2024-03-09", "2024-03-08", "2024-03-10"]);
    let counts: Vec<u32> = rows_of_day(&entries, "2024-03-09").iter().map(|t| t.count).collect();
    assert_eq!(counts, vec![1, 3, 6]);
    assert!(rows_of_day(&entries, "2024-03-11").is_empty());
    let sheets = group_by_day(&entries);
    let days: Vec<&str> = sheets.iter().map(|s| s.day.as_str()).collect();
    assert_eq!(days, vec!["2024-03-09", "2024-03-08", "2024-03-10"]);
    let counts: Vec<Vec<u32>> =
        sheets.iter().map(|s| s.rows.iter().map(|t| t.count).collect()).collect();
    assert_eq!(counts, vec![vec![1, 3, 6], vec![2, 5], vec![4]]);
    let cards: Vec<u32> = sheets[1].rows.iter().map(|t| t.name).collect();
    assert_eq!(cards, vec![320, 437]);
    assert!(group_by_day(&vec![]).is_empty());
    assert_eq!(entries.len(), 6);
}

#[test]
fn thousandths_are_written_with_three_digits_after_the_point() {
    assert_eq!(thousandths_text(0), "0.000");
    assert_eq!(thousandths_text(1), "0.001");
    assert_eq!(thousandths_text(20), "0.020");
    assert_eq!(thousandths_text(305), "0.305");
    assert_eq!(thousandths_text(2000), "2.000");
    assert_eq!(thousandths_text(12345), "12.345");
    assert_eq!(thousandths_text(1_000_999), "1000.999");
}

#[test]
fn a_row_of_average_prices() {
    let response = MarketHomeResponse {
        list: vec![offer("1", 1), offer("3", 1), offer("9", 3), offer("3", 1), offer("0", 1)],
    };
    assert_eq!(
        realtime_row(320, &response).unwrap(),
        vec!["弹药箱", "Ammo Crate", "2.000"]
    );
    let response = MarketHomeResponse { list: vec![offer("10", 3)] };
    assert_eq!(
        realtime_row(500, &response).unwrap(),
        vec!["警报机器人", "Alarm Bot", "0.667"]
    );
    let response = MarketHomeResponse { list: vec![] };
    assert_eq!(realtime_row(500, &response).unwrap()[2], "0.000");
    assert_eq!(realtime_header(), vec!["名字", "英文", "均价"]);
}

#[test]
fn a_row_of_average_prices_that_cannot_be_made() {
    let response = MarketHomeResponse { list: vec![offer("1", 1)] };
    assert_eq!(realtime_row(1, &response).unwrap_err(), ReportError::UnknownCard);
    let response = MarketHomeResponse { list: vec![offer("1", 1), offer("x", 1)] };
    assert_eq!(
        realtime_row(320, &response).unwrap_err(),
        ReportError::Price(NumericError::Malformed)
    );
    let response = MarketHomeResponse { list: vec![offer("1", 0)] };
    assert_eq!(
        realtime_row(320, &response).unwrap_err(),
        ReportError::Price(NumericError::ZeroLevel)
    );
    assert_eq!(realtime_row(1, &response).unwrap_err(), ReportError::UnknownCard);
    let big = "18446744073709551615";
    let response =
        MarketHomeResponse { list: vec![offer(big, 4_000_000_000), offer(big, 1)] };
    assert_eq!(
        realtime_row(320, &response).unwrap_err(),
        ReportError::Price(NumericError::Overflow)
    );
    let tiny = "0.000000000000000001";
    let response = MarketHomeResponse {
        list: (0..3).map(|_| offer(tiny, 4_000_000_000)).collect(),
    };
    assert_eq!(
        realtime_row(320, &response).unwrap_err(),
        ReportError::Price(NumericError::Overflow)
    );
}

#[test]
fn the_rows_of_the_table_of_the_secondary_market() {
    let listings = vec![row(320, "AmmoCrate", "5.00", 7, 3), row(500, "AlarmBot", "12", 0, 40)];
    assert_eq!(
        secondary_table_rows(&listings).unwrap(),
        vec![vec!["弹药箱", "320", "5.00", "7", "3"], vec!["警报机器人", "500", "12", "0", "40"]]
    );
    assert_eq!(
        secondary_table_header(),
        vec!["卡牌名称", "ID", "最低价格", "在售数量", "成交数量"]
    );
    assert!(secondary_table_rows(&vec![]).unwrap().is_empty());
    let listings = vec![row(320, "AmmoCrate", "5.00", 7, 3), row(1, "?", "12", 0, 40)];
    assert!(secondary_table_rows(&listings).is_none());
    assert!(secondary_table(&listings).is_none());
}

#[test]
fn the_table_is_drawn_with_every_cell() {
    let listings = vec![row(320, "AmmoCrate", "5.00", 7, 3), row(500, "AlarmBot", "12", 0, 40)];
    let table = secondary_table(&listings).unwrap();
    for cell in ["卡牌名称", "ID", "最低价格", "在售数量", "成交数量", "弹药箱", "320", "5.00", "警报机器人", "500", "12", "40"] {
        assert!(table.contains(cell), "{}", cell);
    }
    assert!(table.lines().count() >= 5);
    assert!(table.contains('+') && table.contains('|'));
    let empty = secondary_table(&vec![]).unwrap();
    assert!(empty.contains("卡牌名称"));
    assert!(!empty.contains("弹药箱"));
    assert_ne!(table, empty);
}
