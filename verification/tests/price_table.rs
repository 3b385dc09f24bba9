use cardahoy::decimal::NumericError;
use cardahoy::nft::{init_nft_card_map, NftCardMap};
use cardahoy::price_table::{read_csv, ConfigError, PriceTable};
use cardahoy::store::Store;
use cardahoy::utils::Config;

fn catalog() -> NftCardMap {
    let mut map = NftCardMap::new();
    init_nft_card_map(&mut map);
    map
}

fn rows(list: &[&[&str]]) -> Vec<Vec<String>> {
    list.iter().map(|r| r.iter().map(|f| f.to_string()).collect()).collect()
}

fn config(faction: &[&str], rarity: &[&str], foil: &[&str]) -> Config {
    Config {
        client_app_id: "app".to_string(),
        authorization: "token".to_string(),
        cookies: String::new(),
        user_agent: String::new(),
        faction: faction.iter().map(|s| s.to_string()).collect(),
        rarity: rarity.iter().map(|s| s.to_string()).collect(),
        foil: foil.iter().map(|s| s.to_string()).collect(),
    }
}

#[test]
fn load_resolves_names_and_reads_prices() {
    let table = PriceTable::load(
        &rows(&[&["Ammo Crate", "5.00"], &["Alarm Bot", "12"], &["Ammo Crate (Gold)", "0.5"]]),
        &catalog(),
    )
    .unwrap();
    assert_eq!(table.len(), 3);
    let p = table.get(320).unwrap();
    assert_eq!((p.mantissa_digits(), p.scale_digits()), (500, 2));
    let p = table.get(500).unwrap();
    assert_eq!((p.mantissa_digits(), p.scale_digits()), (12, 0));
    let p = table.get(437).unwrap();
    assert_eq!((p.mantissa_digits(), p.scale_digits()), (5, 1));
    assert!(table.get(1).is_none());
}

#[test]
fn load_of_no_rows_is_the_empty_table() {
    assert_eq!(PriceTable::load(&Vec::new(), &catalog()).unwrap().len(), 0);
    assert_eq!(PriceTable::load(&Vec::new(), &NftCardMap::new()).unwrap().len(), 0);
}

#[test]
fn a_later_row_for_the_same_card_counts() {
    let table = PriceTable::load(
        &rows(&[&["Ammo Crate", "5.00"], &["Ammo Crate", "7"]]),
        &catalog(),
    )
    .unwrap();
    assert_eq!(table.len(), 1);
    assert_eq!(table.get(320).unwrap().mantissa_digits(), 7);
}

#[test]
fn an_unknown_name_fails_the_whole_table() {
    let loaded = PriceTable::load(
        &rows(&[&["Ammo Crate", "5.00"], &["No Such Card", "1"], &["Alarm Bot", "2"]]),
        &catalog(),
    );
    assert_eq!(loaded.unwrap_err(), ConfigError::UnknownName { row: 1 });
}

#[test]
fn names_are_matched_exactly() {
    for name in ["ammo crate", "Ammo Crate ", " Ammo Crate", "AmmoCrate", "弹药箱", ""] {
        let loaded = PriceTable::load(&rows(&[&[name, "5.00"]]), &catalog());
        assert_eq!(loaded.unwrap_err(), ConfigError::UnknownName { row: 0 });
    }
}

#[test]
fn a_price_that_is_no_amount_fails_the_whole_table() {
    let loaded = PriceTable::load(
        &rows(&[&["Ammo Crate", "5.00"], &["Alarm Bot", "cheap"]]),
        &catalog(),
    );
    assert_eq!(
        loaded.unwrap_err(),
        ConfigError::BadPrice { row: 1, error: NumericError::Malformed }
    );
    let loaded = PriceTable::load(&rows(&[&["Alarm Bot", ""]]), &catalog());
    assert_eq!(
        loaded.unwrap_err(),
        ConfigError::BadPrice { row: 0, error: NumericError::Empty }
    );
    let loaded = PriceTable::load(&rows(&[&["Alarm Bot", "1.0000000000000000001"]]), &catalog());
    assert_eq!(
        loaded.unwrap_err(),
        ConfigError::BadPrice { row: 0, error: NumericError::OutOfRange }
    );
}

#[test]
fn a_row_of_another_width_fails_the_whole_table() {
    let loaded = PriceTable::load(&rows(&[&["Ammo Crate", "5.00"], &["Alarm Bot"]]), &catalog());
    assert_eq!(loaded.unwrap_err(), ConfigError::Columns { row: 1 });
    let loaded = PriceTable::load(&rows(&[&["Ammo Crate", "5.00", "x"]]), &catalog());
    assert_eq!(loaded.unwrap_err(), ConfigError::Columns { row: 0 });
    let loaded = PriceTable::load(&rows(&[&[]]), &catalog());
    assert_eq!(loaded.unwrap_err(), ConfigError::Columns { row: 0 });
}

#[test]
fn the_first_fault_is_reported() {
    let loaded = PriceTable::load(
        &rows(&[&["Ammo Crate", "bad"], &["No Such Card", "1"], &["x"]]),
        &catalog(),
    );
    assert_eq!(
        loaded.unwrap_err(),
        ConfigError::BadPrice { row: 0, error: NumericError::Malformed }
    );
    let loaded = PriceTable::load(&rows(&[&["No Such Card", "bad"]]), &catalog());
    assert_eq!(loaded.unwrap_err(), ConfigError::UnknownName { row: 0 });
}

#[test]
fn with_a_catalog_that_is_not_filled_no_name_is_known() {
    let loaded = PriceTable::load(&rows(&[&["Ammo Crate", "5.00"]]), &NftCardMap::new());
    assert_eq!(loaded.unwrap_err(), ConfigError::UnknownName { row: 0 });
}

#[test]
fn read_csv_splits_the_text_into_rows() {
    let table = read_csv("Ammo Crate,5.00\nAlarm Bot,12\n", &catalog()).unwrap();
    assert_eq!(table.len(), 2);
    assert_eq!(table.get(320).unwrap().mantissa_digits(), 500);
    assert_eq!(table.get(500).unwrap().mantissa_digits(), 12);
}

#[test]
fn read_csv_has_no_header_row() {
    let table = read_csv("Ammo Crate,5.00", &catalog()).unwrap();
    assert_eq!(table.len(), 1);
    let loaded = read_csv("name,price\nAmmo Crate,5.00\n", &catalog());
    assert_eq!(loaded.unwrap_err(), ConfigError::UnknownName { row: 0 });
}

#[test]
fn read_csv_takes_quoted_fields() {
    let table = read_csv("\"Ammo Crate (Gold)\",\"0.50\"\r\n", &catalog()).unwrap();
    assert_eq!(table.get(437).unwrap().mantissa_digits(), 50);
}

#[test]
fn read_csv_of_nothing_is_the_empty_table() {
    assert_eq!(read_csv("", &catalog()).unwrap().len(), 0);
}

#[test]
fn read_csv_refuses_rows_of_unequal_width() {
    let loaded = read_csv("Ammo Crate,5.00\nAlarm Bot\n", &catalog());
    assert_eq!(loaded.unwrap_err(), ConfigError::NotATable);
}

#[test]
fn read_csv_reports_an_unknown_name() {
    let loaded = read_csv("Ammo Crate,5.00\nNo Such Card,1\n", &catalog());
    assert_eq!(loaded.unwrap_err(), ConfigError::UnknownName { row: 1 });
}

#[test]
fn store_new_counts_the_cards_the_settings_select() {
    let store = Store::new(config(&["Neutral"], &["Common"], &["Regular", "Gold"]), "", &catalog())
        .unwrap();
    assert_eq!(store.discrete_list.len(), 5);
    assert_eq!(store.discrete_list[0].filter_name, "Type");
    assert!(store.discrete_list[0].value_id_list.is_empty());
    assert_eq!(store.discrete_list[1].filter_name, "Faction");
    assert_eq!(store.discrete_list[1].value_id_list, vec!["Neutral".to_string()]);
    assert_eq!(store.discrete_list[1].filter_id_list, vec!["Neutral".to_string()]);
    assert_eq!(store.discrete_list[2].filter_name, "Rarity");
    assert_eq!(store.discrete_list[2].value_id_list, vec!["Common".to_string()]);
    assert_eq!(store.discrete_list[3].filter_name, "Foil");
    assert_eq!(
        store.discrete_list[3].value_id_list,
        vec!["Regular".to_string(), "Gold".to_string()]
    );
    assert_eq!(store.discrete_list[4].filter_name, "Source");
    assert!(store.discrete_list[4].value_id_list.is_empty());
    assert_eq!(store.cards_number, 14);
    assert_eq!(store.config.authorization, "token");
}

#[test]
fn store_new_with_no_choice_selects_every_card() {
    let store = Store::new(config(&[], &[], &[]), "Ammo Crate,5.00\n", &catalog()).unwrap();
    assert_eq!(store.cards_number, 222);
    assert_eq!(store.prices.len(), 1);
    let store = Store::new(config(&["Mech"], &[], &["Gold"]), "", &catalog()).unwrap();
    assert_eq!(store.cards_number, 36);
    let store = Store::new(config(&["Mech", "Dragon"], &["Epic"], &[]), "", &catalog()).unwrap();
    assert_eq!(store.cards_number, 72);
}

#[test]
fn store_new_takes_unknown_names_as_neutral_and_white() {
    let store = Store::new(config(&["Robots"], &[], &[]), "", &catalog()).unwrap();
    assert_eq!(store.cards_number, 42);
    let store = Store::new(config(&[], &["Mythic"], &["Shiny"]), "", &catalog()).unwrap();
    assert_eq!(store.cards_number, 23);
}

#[test]
fn store_new_fails_where_the_prices_fail() {
    let made = Store::new(config(&[], &[], &[]), "No Such Card,1\n", &catalog());
    assert_eq!(made.unwrap_err(), ConfigError::UnknownName { row: 0 });
    let made = Store::new(config(&[], &[], &[]), "a,b\nc\n", &catalog());
    assert_eq!(made.unwrap_err(), ConfigError::NotATable);
    let made = Store::new(config(&[], &[], &[]), "", &NftCardMap::new());
    assert_eq!(made.unwrap_err(), ConfigError::CatalogNotReady);
}
