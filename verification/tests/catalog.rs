use cardahoy::nft::{
    filter_cards, filter_cards_id_only, generate_nft_card_map, get_card_by_id, get_card_by_name,
    get_card_by_value, get_nft_card_category, get_nft_card_color, init_nft_card_map, CatalogError,
    CategorySet, ColorSet, NftCard, NftCardCategory, NftCardColor, NftCardId, NftCardMap, NftId,
    NftSortType, CARD_COUNT,
};

fn catalog() -> NftCardMap {
    let mut map = NftCardMap::new();
    init_nft_card_map(&mut map);
    map
}

fn categories(list: &[NftCardCategory]) -> CategorySet {
    let mut set = CategorySet::new();
    for c in list {
        set.insert(*c);
    }
    set
}

fn colors(list: &[NftCardColor]) -> ColorSet {
    let mut set = ColorSet::new();
    for c in list {
        set.insert(*c);
    }
    set
}

#[test]
fn the_catalog_holds_each_card_once() {
    let all = NftCardId::all();
    assert_eq!(all.len(), 222);
    assert_eq!(all.len(), CARD_COUNT);
    for (i, card) in all.iter().enumerate() {
        assert_eq!(card.to_ordinal(), i);
    }
    assert_eq!(all[0], NftCardId::AlarmBot);
    assert_eq!(all[221], NftCardId::ZombieBrideGold);
}

#[test]
fn looking_a_card_up_by_its_number_finds_that_card() {
    for card in NftCardId::all() {
        assert_eq!(NftCardId::from_id(card.to_wire_code()), Some(card));
    }
}

#[test]
fn no_two_cards_share_a_number_or_a_name() {
    let all = NftCardId::all();
    let mut codes: Vec<u32> = all.iter().map(|c| c.to_wire_code()).collect();
    codes.sort();
    codes.dedup();
    assert_eq!(codes.len(), 222);
    let mut names: Vec<String> = all.iter().map(|c| c.to_string()).collect();
    names.sort();
    names.dedup();
    assert_eq!(names.len(), 222);
    assert_eq!(NftCardId::to_vec_u32().len(), 222);
    assert_eq!(NftCardId::to_vec_u32()[0], 500);
}

#[test]
fn the_numbers_of_some_cards() {
    assert_eq!(NftCardId::AlarmBot.to_wire_code(), 500);
    assert_eq!(NftCardId::AlarmBotGold.to_wire_code(), 537);
    assert_eq!(NftCardId::AmmoCrate.to_wire_code(), 320);
    assert_eq!(NftCardId::AmmoCrateGold.to_wire_code(), 437);
    assert_eq!(NftCardId::ZombieBrideGold.to_wire_code(), 430);
    assert_eq!(NftCardId::from_id(320), Some(NftCardId::AmmoCrate));
    assert_eq!(NftCardId::from_id(0), None);
    assert_eq!(NftCardId::from_id(1), None);
    assert_eq!(NftCardId::from_id(u32::MAX), None);
}

#[test]
fn the_names_of_some_cards() {
    assert_eq!(NftCardId::AmmoCrate.to_string(), "Ammo Crate");
    assert_eq!(NftCardId::AmmoCrate.to_english(), "Ammo Crate");
    assert_eq!(NftCardId::AmmoCrateGold.to_string(), "Ammo Crate (Gold)");
    assert_eq!(NftCardId::AmmoCrate.to_chinese(), "弹药箱");
    assert_eq!(NftCardId::AlarmBotGold.to_chinese(), "警报机器人 (金)");
    assert_eq!(NftCardId::get_name_by_id(NftCardId::AmmoCrate, "cn"), "弹药箱");
    assert_eq!(NftCardId::get_name_by_id(NftCardId::AmmoCrate, "zh"), "弹药箱");
    assert_eq!(NftCardId::get_name_by_id(NftCardId::AmmoCrate, "en"), "Ammo Crate");
    assert_eq!(NftCardId::get_name_by_id(NftCardId::AmmoCrate, ""), "Ammo Crate");
    assert_eq!(NftCardId::get_name_by_id(NftCardId::AmmoCrate, "CN"), "Ammo Crate");
    assert_eq!(
        NftCardId::get_name_by_value(500, "cn"),
        Some("警报机器人".to_string())
    );
    assert_eq!(NftCardId::get_name_by_value(501, "en"), Some("Wind Dragon".to_string()));
    assert_eq!(NftCardId::get_name_by_value(2, "cn"), None);
}

#[test]
fn the_faction_and_colour_of_some_cards() {
    assert_eq!(get_nft_card_category(NftCardId::WolfKing), NftCardCategory::Animal);
    assert_eq!(get_nft_card_category(NftCardId::AlarmBot), NftCardCategory::Mech);
    assert_eq!(get_nft_card_category(NftCardId::AmmoCrate), NftCardCategory::Neutral);
    assert_eq!(get_nft_card_category(NftCardId::ZombieBrideGold), NftCardCategory::Zombie);
    assert_eq!(get_nft_card_color(NftCardId::AlarmBot), NftCardColor::Purple);
    assert_eq!(get_nft_card_color(NftCardId::AlarmBotGold), NftCardColor::PurpleGold);
    assert_eq!(get_nft_card_color(NftCardId::ZombieBrideGold), NftCardColor::PurpleGold);
}

#[test]
fn every_faction_and_colour_has_its_cards() {
    let all = NftCardId::all();
    let count = |c: NftCardCategory| all.iter().filter(|id| get_nft_card_category(**id) == c).count();
    assert_eq!(count(NftCardCategory::Neutral), 42);
    assert_eq!(count(NftCardCategory::Animal), 36);
    assert_eq!(count(NftCardCategory::Plant), 36);
    assert_eq!(count(NftCardCategory::Zombie), 36);
    assert_eq!(count(NftCardCategory::Dragon), 36);
    assert_eq!(count(NftCardCategory::Mech), 36);
    let count = |c: NftCardColor| all.iter().filter(|id| get_nft_card_color(**id) == c).count();
    assert_eq!(count(NftCardColor::Orange), 18);
    assert_eq!(count(NftCardColor::OrangeGold), 18);
    assert_eq!(count(NftCardColor::Purple), 39);
    assert_eq!(count(NftCardColor::PurpleGold), 39);
    assert_eq!(count(NftCardColor::Blue), 31);
    assert_eq!(count(NftCardColor::BlueGold), 31);
    assert_eq!(count(NftCardColor::White), 23);
    assert_eq!(count(NftCardColor::WhiteGold), 23);
}

#[test]
fn a_catalog_that_is_not_filled_finds_nothing() {
    let map = NftCardMap::new();
    assert!(!map.is_ready());
    assert!(get_card_by_value(&map, 320).is_none());
    assert!(get_card_by_id(&map, NftCardId::AmmoCrate).is_none());
    assert!(get_card_by_name(&map, "Ammo Crate").is_none());
    assert!(filter_cards(&map, None, None).is_none());
    assert_eq!(filter_cards_id_only(&map, None, None).unwrap_err(), CatalogError::NotReady);
}

#[test]
fn filling_the_catalog_twice_changes_nothing() {
    let mut map = NftCardMap::new();
    init_nft_card_map(&mut map);
    assert!(map.is_ready());
    let before = filter_cards_id_only(&map, None, None).unwrap();
    init_nft_card_map(&mut map);
    assert!(map.is_ready());
    assert_eq!(filter_cards_id_only(&map, None, None).unwrap(), before);
    assert_eq!(before, NftCardId::all());
}

#[test]
fn generate_gives_one_record_for_every_card() {
    let cards = generate_nft_card_map();
    assert_eq!(cards.len(), 222);
    let all = NftCardId::all();
    for (i, card) in cards.iter().enumerate() {
        let id = all[i];
        assert_eq!(card.id, id);
        assert_eq!(card.value, id.to_wire_code());
        assert_eq!(card.name_en, id.to_string());
        assert_eq!(card.name_cn, id.to_chinese());
        assert_eq!(card.category, get_nft_card_category(id));
        assert_eq!(card.color, get_nft_card_color(id));
    }
}

#[test]
fn a_card_is_found_by_number_by_id_and_by_name() {
    let map = catalog();
    let card = get_card_by_value(&map, 320).unwrap();
    assert_eq!(card.id, NftCardId::AmmoCrate);
    assert_eq!(card.name_en(), "Ammo Crate");
    assert_eq!(card.name_cn(), "弹药箱");
    assert_eq!(card.value(), 320);
    assert_eq!(*card.id(), NftCardId::AmmoCrate);
    assert_eq!(*card.card_type(), NftCardCategory::Neutral);
    let card = get_card_by_id(&map, NftCardId::AlarmBotGold).unwrap();
    assert_eq!(card.value, 537);
    assert_eq!(card.color, NftCardColor::PurpleGold);
    let card = get_card_by_name(&map, "Alarm Bot (Gold)").unwrap();
    assert_eq!(card.value, 537);
    assert!(get_card_by_name(&map, "Alarm Bot (gold)").is_none());
    assert!(get_card_by_name(&map, "").is_none());
    assert!(get_card_by_value(&map, 1).is_none());
    for id in NftCardId::all() {
        assert_eq!(get_card_by_name(&map, &id.to_string()).unwrap().id, id);
        assert_eq!(get_card_by_value(&map, id.to_wire_code()).unwrap().id, id);
    }
}

#[test]
fn nft_card_new_keeps_its_parts() {
    let card = NftCard::new(
        7,
        NftCardId::Apple,
        NftCardCategory::Plant,
        NftCardColor::White,
        "Apple".to_string(),
        "苹果",
    );
    assert_eq!(card.value(), 7);
    assert_eq!(*card.id(), NftCardId::Apple);
    assert_eq!(*card.card_type(), NftCardCategory::Plant);
    assert_eq!(card.color, NftCardColor::White);
    assert_eq!(card.name_en(), "Apple");
    assert_eq!(card.name_cn(), "苹果");
}

#[test]
fn an_absent_or_empty_filter_lets_every_card_pass() {
    let map = catalog();
    assert_eq!(filter_cards(&map, None, None).unwrap().len(), 222);
    assert_eq!(
        filter_cards(&map, Some(CategorySet::new()), Some(ColorSet::new())).unwrap().len(),
        222
    );
    assert_eq!(filter_cards(&map, Some(CategorySet::new()), None).unwrap().len(), 222);
}

#[test]
fn the_filters_narrow_by_faction_and_colour() {
    let map = catalog();
    let neutral = categories(&[NftCardCategory::Neutral]);
    assert_eq!(filter_cards(&map, Some(neutral), None).unwrap().len(), 42);
    let two = categories(&[NftCardCategory::Mech, NftCardCategory::Dragon]);
    assert_eq!(filter_cards(&map, Some(two), None).unwrap().len(), 72);
    let orange = colors(&[NftCardColor::Orange]);
    assert_eq!(filter_cards(&map, None, Some(orange)).unwrap().len(), 18);
    let found = filter_cards(&map, Some(two), Some(orange)).unwrap();
    assert_eq!(found.len(), 8);
    for card in found.iter() {
        assert!(card.category == NftCardCategory::Mech || card.category == NftCardCategory::Dragon);
        assert_eq!(card.color, NftCardColor::Orange);
    }
    let expected = NftCardId::all()
        .into_iter()
        .filter(|id| {
            let c = get_nft_card_category(*id);
            (c == NftCardCategory::Mech || c == NftCardCategory::Dragon)
                && get_nft_card_color(*id) == NftCardColor::Orange
        })
        .collect::<Vec<_>>();
    assert_eq!(filter_cards_id_only(&map, Some(two), Some(orange)).unwrap(), expected);
}

#[test]
fn the_filtered_cards_come_in_the_order_of_the_catalog() {
    let map = catalog();
    let ids = filter_cards_id_only(&map, Some(categories(&[NftCardCategory::Animal])), None).unwrap();
    assert_eq!(ids.len(), 36);
    for pair in ids.windows(2) {
        assert!(pair[0].to_ordinal() < pair[1].to_ordinal());
    }
}

#[test]
fn sets_hold_what_was_put_in() {
    let mut set = CategorySet::new();
    assert!(set.is_empty());
    assert!(!set.contains(NftCardCategory::Plant));
    set.insert(NftCardCategory::Plant);
    set.insert(NftCardCategory::Plant);
    assert!(!set.is_empty());
    assert!(set.contains(NftCardCategory::Plant));
    assert!(!set.contains(NftCardCategory::Animal));
    let mut set = ColorSet::new();
    assert!(set.is_empty());
    set.insert(NftCardColor::WhiteGold);
    assert!(set.contains(NftCardColor::WhiteGold));
    assert!(!set.contains(NftCardColor::White));
    assert!(!set.is_empty());
}

#[test]
fn the_numbers_of_families_and_orders() {
    assert_eq!(NftId::Cards.to_wire_code(), 12);
    assert_eq!(NftId::Boxes.to_wire_code(), 13);
    assert_eq!(NftId::Fragments.to_wire_code(), 15);
    assert_eq!(NftSortType::PriceAscending.to_wire_code(), 0);
    assert_eq!(NftSortType::PriceDescending.to_wire_code(), 1);
    assert_eq!(NftSortType::SalesVolumeAscending.to_wire_code(), 2);
    assert_eq!(NftSortType::SalesVolumeDescending.to_wire_code(), 3);
    assert_eq!(NftSortType::QuantityAscending.to_wire_code(), 4);
    assert_eq!(NftSortType::QuantityDescending.to_wire_code(), 5);
}
