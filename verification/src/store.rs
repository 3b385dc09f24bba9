//! The scan filter: which rows of the secondary market are cheap enough to
//! look at, by the trader's reference prices.

use crate::decimal::{read_decimal, Decimal};
use crate::filter::{Discrete, DiscreteFilter};
use crate::api::ApiError;
use crate::card_id::NftCardId;
use crate::decimal::NumericError;
use crate::engine::{BuyDecisionEngine, Evaluation, Outcome, DEFAULT_MAX_LEVEL};
use crate::market_home::{
    market_home_query, MarketHomeQuery, MarketHomeResponse, MarketHomeSortType,
};
use crate::strategy::{
    cheap_gold_offers, gold_is_comparable, gold_of, gold_offers, gold_pairs, picks_cheap_gold,
    plain_cards_with_gold, top_sum, CARD_NUMBER_GREATER,
};
use crate::market_secondary::{
    market_secondary_query, MarketSecondaryQuery, MarketSecondaryResponse, Secondary,
};
use crate::nft::{
    filter_cards, filter_cards_id_only, filtered_cards, filtered_ids, CatalogError, CategorySet,
    ColorSet, NftCard, NftCardCategory, NftCardColor, NftCardMap, NftId, NftSortType,
};
use crate::text::{digits_of, number_text};
use crate::price_table::{read_csv, table_of, csv_records, ConfigError, PriceTable};
use crate::sequences::{lemma_filter_members, lemma_filter_next, lemma_filter_twice};
use crate::text::str_eq;
use crate::utils::Config;
use vstd::prelude::*;
use vstd::string::*;

verus! {

/// Whether a row is cheap: the table has a reference price for its card, its
/// floor price is an amount, and that amount is at most the reference price.
/// A floor price equal to the reference price is cheap.
pub open spec fn is_cheap(listing: Secondary, table: Map<u32, Decimal>) -> bool {
    &&& table.contains_key(listing.secondary_id)
    &&& read_decimal(listing.floor_price@) is Ok
    &&& read_decimal(listing.floor_price@)->Ok_0.value_le(table[listing.secondary_id])
}

/// The cheap rows among `listings`, in the order of `listings`.
pub open spec fn cheap_listings(listings: Seq<Secondary>, table: Map<u32, Decimal>) -> Seq<
    Secondary,
> {
    listings.filter(|listing: Secondary| is_cheap(listing, table))
}

/// Whether one row is cheap. A row of a card without a reference price is
/// not: the card is not traded. A row whose floor price is no amount is not
/// either.
pub fn is_cheap_listing(listing: &Secondary, table: &PriceTable) -> (cheap: bool)
    ensures
        cheap == is_cheap(*listing, table@),
{
    match table.get(listing.secondary_id) {
        Some(reference) => match Decimal::parse(listing.floor_price.as_str()) {
            Ok(floor) => floor.le(&reference),
            Err(_) => false,
        },
        None => false,
    }
}

/// Gives the cheap rows among `listings`, in the order of `listings`. Neither
/// `listings` nor `table` is changed.
pub fn cheap_cards(listings: &Vec<Secondary>, table: &PriceTable) -> (kept: Vec<Secondary>)
    ensures
        kept@ == cheap_listings(listings@, table@),
{
    let mut kept: Vec<Secondary> = Vec::new();
    let mut i: usize = 0;
    while i < listings.len()
        invariant
            i <= listings@.len(),
            kept@ == cheap_listings(listings@.take(i as int), table@),
        decreases listings@.len() - i,
    {
        proof {
            lemma_filter_next(
                listings@,
                |listing: Secondary| is_cheap(listing, table@),
                i as int,
            );
        }
        if is_cheap_listing(&listings[i], table) {
            kept.push(listings[i].clone());
        }
        i += 1;
    }
    assert(listings@.take(listings@.len() as int) =~= listings@);
    kept
}

/// The filter gives exactly the cheap rows: every row it gives is a cheap row
/// of `listings`, and it gives no more rows than there are.
pub proof fn lemma_kept_are_cheap(listings: Seq<Secondary>, table: Map<u32, Decimal>)
    ensures
        forall|k: int|
            0 <= k < cheap_listings(listings, table).len() ==> is_cheap(
                #[trigger] cheap_listings(listings, table)[k],
                table,
            ) && listings.contains(cheap_listings(listings, table)[k]),
        cheap_listings(listings, table).len() <= listings.len(),
{
    lemma_filter_members(listings, |listing: Secondary| is_cheap(listing, table));
}

/// The threshold is inclusive: a row whose floor price equals the reference
/// price of its card is cheap.
pub proof fn lemma_price_at_reference_is_cheap(listing: Secondary, table: Map<u32, Decimal>)
    requires
        table.contains_key(listing.secondary_id),
        read_decimal(listing.floor_price@) matches Ok(floor) && floor.value_eq(
            table[listing.secondary_id],
        ),
    ensures
        is_cheap(listing, table),
{
}

/// A row of a card without a reference price is never kept.
pub proof fn lemma_untraded_is_not_cheap(listing: Secondary, table: Map<u32, Decimal>)
    requires
        !table.contains_key(listing.secondary_id),
    ensures
        !is_cheap(listing, table),
{
}

/// The filter is a function of its two inputs: two results for the same rows
/// and the same table are the same.
pub proof fn lemma_filter_is_a_function(
    listings: Seq<Secondary>,
    table: Map<u32, Decimal>,
    first: Seq<Secondary>,
    second: Seq<Secondary>,
)
    requires
        first == cheap_listings(listings, table),
        second == cheap_listings(listings, table),
    ensures
        first == second,
{
}

/// Filtering what the filter gave changes nothing.
pub proof fn lemma_filter_is_idempotent(listings: Seq<Secondary>, table: Map<u32, Decimal>)
    ensures
        cheap_listings(cheap_listings(listings, table), table) == cheap_listings(listings, table),
{
    lemma_filter_twice(listings, |listing: Secondary| is_cheap(listing, table));
}

/// The faction that a name in the settings stands for; a name that stands
/// for none counts as neutral.
pub open spec fn category_named(name: Seq<char>) -> NftCardCategory {
    if name == "Zombie"@ {
        NftCardCategory::Zombie
    } else if name == "Dragon"@ {
        NftCardCategory::Dragon
    } else if name == "Mech"@ {
        NftCardCategory::Mech
    } else if name == "Animal"@ {
        NftCardCategory::Animal
    } else if name == "Plant"@ {
        NftCardCategory::Plant
    } else {
        NftCardCategory::Neutral
    }
}

/// The colour that a foil and a rarity of the settings stand for; a pair
/// that stands for none counts as white.
pub open spec fn color_named(foil: Seq<char>, rarity: Seq<char>) -> NftCardColor {
    if foil == "Regular"@ {
        if rarity == "Rare"@ {
            NftCardColor::Blue
        } else if rarity == "Epic"@ {
            NftCardColor::Purple
        } else if rarity == "Legendary"@ {
            NftCardColor::Orange
        } else {
            NftCardColor::White
        }
    } else if foil == "Gold"@ {
        if rarity == "Common"@ {
            NftCardColor::WhiteGold
        } else if rarity == "Rare"@ {
            NftCardColor::BlueGold
        } else if rarity == "Epic"@ {
            NftCardColor::PurpleGold
        } else if rarity == "Legendary"@ {
            NftCardColor::OrangeGold
        } else {
            NftCardColor::White
        }
    } else {
        NftCardColor::White
    }
}

/// Gives the faction that `name` stands for.
pub fn category_of(name: &str) -> (category: NftCardCategory)
    ensures
        category == category_named(name@),
{
    if str_eq(name, "Zombie") {
        NftCardCategory::Zombie
    } else if str_eq(name, "Dragon") {
        NftCardCategory::Dragon
    } else if str_eq(name, "Mech") {
        NftCardCategory::Mech
    } else if str_eq(name, "Animal") {
        NftCardCategory::Animal
    } else if str_eq(name, "Plant") {
        NftCardCategory::Plant
    } else {
        NftCardCategory::Neutral
    }
}

/// Gives the colour that `foil` and `rarity` stand for.
pub fn color_of(foil: &str, rarity: &str) -> (color: NftCardColor)
    ensures
        color == color_named(foil@, rarity@),
{
    if str_eq(foil, "Regular") {
        if str_eq(rarity, "Rare") {
            NftCardColor::Blue
        } else if str_eq(rarity, "Epic") {
            NftCardColor::Purple
        } else if str_eq(rarity, "Legendary") {
            NftCardColor::Orange
        } else {
            NftCardColor::White
        }
    } else if str_eq(foil, "Gold") {
        if str_eq(rarity, "Common") {
            NftCardColor::WhiteGold
        } else if str_eq(rarity, "Rare") {
            NftCardColor::BlueGold
        } else if str_eq(rarity, "Epic") {
            NftCardColor::PurpleGold
        } else if str_eq(rarity, "Legendary") {
            NftCardColor::OrangeGold
        } else {
            NftCardColor::White
        }
    } else {
        NftCardColor::White
    }
}

/// Whether `set` holds exactly the factions that `names` stand for.
pub open spec fn holds_categories_of(set: CategorySet, names: Seq<String>) -> bool {
    forall|category: NftCardCategory|
        set.has(category) <==> exists|i: int|
            0 <= i < names.len() && category_named(#[trigger] names[i]@) == category
}

/// Whether `set` holds exactly the colours that the pairs of one of `foils`
/// and one of `rarities` stand for.
pub open spec fn holds_colors_of(set: ColorSet, foils: Seq<String>, rarities: Seq<String>) -> bool {
    forall|color: NftCardColor|
        set.has(color) <==> exists|i: int, j: int|
            0 <= i < foils.len() && 0 <= j < rarities.len() && #[trigger] color_named(
                foils[i]@,
                rarities[j]@,
            ) == color
}

/// Gives the factions that the names in the settings stand for.
pub fn categories_of(names: &Vec<String>) -> (set: CategorySet)
    ensures
        holds_categories_of(set, names@),
{
    let mut set = CategorySet::new();
    let mut i: usize = 0;
    while i < names.len()
        invariant
            i <= names@.len(),
            holds_categories_of(set, names@.take(i as int)),
        decreases names@.len() - i,
    {
        let ghost before = set;
        let category = category_of(names[i].as_str());
        set.insert(category);
        proof {
            let shorter = names@.take(i as int);
            let longer = names@.take(i as int + 1);
            assert forall|c: NftCardCategory| set.has(c) <==> exists|k: int|
                0 <= k < longer.len() && category_named(#[trigger] longer[k]@) == c by {
                if set.has(c) {
                    if c == category {
                        assert(category_named(longer[i as int]@) == c);
                    } else {
                        assert(before.has(c));
                        let k = choose|k: int|
                            0 <= k < shorter.len() && category_named(#[trigger] shorter[k]@) == c;
                        assert(category_named(longer[k]@) == c);
                    }
                }
                if exists|k: int|
                    0 <= k < longer.len() && category_named(#[trigger] longer[k]@) == c {
                    let k = choose|k: int|
                        0 <= k < longer.len() && category_named(#[trigger] longer[k]@) == c;
                    if k < i {
                        assert(category_named(shorter[k]@) == c);
                    }
                }
            }
        }
        i += 1;
    }
    assert(names@.take(names@.len() as int) =~= names@);
    set
}

/// Gives the colours that the pairs of one of `foils` and one of `rarities`
/// stand for.
pub fn colors_of(foils: &Vec<String>, rarities: &Vec<String>) -> (set: ColorSet)
    ensures
        holds_colors_of(set, foils@, rarities@),
{
    let mut set = ColorSet::new();
    let mut i: usize = 0;
    while i < foils.len()
        invariant
            i <= foils@.len(),
            holds_colors_of(set, foils@.take(i as int), rarities@),
        decreases foils@.len() - i,
    {
        let ghost outer = set;
        let mut j: usize = 0;
        while j < rarities.len()
            invariant
                i < foils@.len(),
                j <= rarities@.len(),
                holds_colors_of(outer, foils@.take(i as int), rarities@),
                forall|color: NftCardColor|
                    set.has(color) <==> (outer.has(color) || exists|k: int|
                        0 <= k < j && #[trigger] color_named(foils@[i as int]@, rarities@[k]@)
                            == color),
            decreases rarities@.len() - j,
        {
            let color = color_of(foils[i].as_str(), rarities[j].as_str());
            let ghost before = set;
            set.insert(color);
            proof {
                assert forall|c: NftCardColor| set.has(c) <==> (outer.has(c) || exists|k: int|
                    0 <= k < j + 1 && #[trigger] color_named(foils@[i as int]@, rarities@[k]@)
                        == c) by {
                    if c == color {
                        assert(color_named(foils@[i as int]@, rarities@[j as int]@) == c);
                    }
                    if exists|k: int|
                        0 <= k < j + 1 && #[trigger] color_named(
                            foils@[i as int]@,
                            rarities@[k]@,
                        ) == c {
                        let k = choose|k: int|
                            0 <= k < j + 1 && #[trigger] color_named(
                                foils@[i as int]@,
                                rarities@[k]@,
                            ) == c;
                        if k < j {
                            assert(before.has(c));
                        }
                    }
                }
            }
            j += 1;
        }
        proof {
            let shorter = foils@.take(i as int);
            let longer = foils@.take(i as int + 1);
            assert forall|c: NftCardColor| set.has(c) <==> exists|a: int, b: int|
                0 <= a < longer.len() && 0 <= b < rarities@.len() && #[trigger] color_named(
                    longer[a]@,
                    rarities@[b]@,
                ) == c by {
                if set.has(c) {
                    if outer.has(c) {
                        let (a, b) = choose|a: int, b: int|
                            0 <= a < shorter.len() && 0 <= b < rarities@.len()
                                && #[trigger] color_named(shorter[a]@, rarities@[b]@) == c;
                        assert(color_named(longer[a]@, rarities@[b]@) == c);
                    } else {
                        let k = choose|k: int|
                            0 <= k < rarities@.len() && #[trigger] color_named(
                                foils@[i as int]@,
                                rarities@[k]@,
                            ) == c;
                        assert(color_named(longer[i as int]@, rarities@[k]@) == c);
                    }
                }
                if exists|a: int, b: int|
                    0 <= a < longer.len() && 0 <= b < rarities@.len() && #[trigger] color_named(
                        longer[a]@,
                        rarities@[b]@,
                    ) == c {
                    let (a, b) = choose|a: int, b: int|
                        0 <= a < longer.len() && 0 <= b < rarities@.len()
                            && #[trigger] color_named(longer[a]@, rarities@[b]@) == c;
                    if a < i {
                        assert(color_named(shorter[a]@, rarities@[b]@) == c);
                    } else {
                        assert(color_named(foils@[i as int]@, rarities@[b]@) == c);
                    }
                }
            }
        }
        i += 1;
    }
    assert(foils@.take(foils@.len() as int) =~= foils@);
    set
}

/// What a scan works with: the reference prices, the settings, and what the
/// settings come to: how many cards they select, and the filters that ask the
/// marketplace for those cards.
#[derive(Debug)]
pub struct Store {
    pub prices: PriceTable,
    pub config: Config,
    /// How many cards of the catalog the settings select.
    pub cards_number: u32,
    /// The filters for the settings: type, faction, rarity, foil and source,
    /// in this order.
    pub discrete_list: Vec<Discrete>,
}

impl Store {
    /// Whether `list` holds the filters for `config`: every type, the
    /// factions, rarities and foils of `config`, and every source.
    pub open spec fn filters_for(list: Seq<Discrete>, config: Config) -> bool {
        &&& list.len() == 5
        &&& list[0].chooses(DiscreteFilter::Type, Seq::empty())
        &&& list[1].chooses(DiscreteFilter::Faction, config.faction@)
        &&& list[2].chooses(DiscreteFilter::Rarity, config.rarity@)
        &&& list[3].chooses(DiscreteFilter::Foil, config.foil@)
        &&& list[4].chooses(DiscreteFilter::Source, Seq::empty())
    }

    /// Whether `n` is the number of cards in `catalog` that `config` selects.
    pub open spec fn selects(config: Config, catalog: NftCardMap, n: nat) -> bool {
        exists|categories: CategorySet, colors: ColorSet|
            holds_categories_of(categories, config.faction@) && holds_colors_of(
                colors,
                config.foil@,
                config.rarity@,
            ) && n == #[trigger] filtered_cards(
                catalog.cards(),
                Some(categories),
                Some(colors),
            ).len()
    }

    /// Makes the store from the settings, the text of the file of reference
    /// prices and the catalog.
    ///
    /// It fails exactly when the table of reference prices cannot be made
    /// from `prices_csv`; with a catalog that is not filled no table can be
    /// made.
    pub fn new(config: Config, prices_csv: &str, catalog: &NftCardMap) -> (made: Result<
        Store,
        ConfigError,
    >)
        ensures
            match made {
                Ok(store) => {
                    &&& catalog.ready()
                    &&& csv_records(prices_csv@) is Some
                    &&& table_of(csv_records(prices_csv@)->0, true) == Ok::<
                        Map<u32, Decimal>,
                        ConfigError,
                    >(store.prices@)
                    &&& store.config == config
                    &&& Store::filters_for(store.discrete_list@, config)
                    &&& Store::selects(config, *catalog, store.cards_number as nat)
                },
                Err(e) => if !catalog.ready() {
                    e == ConfigError::CatalogNotReady
                } else {
                    match csv_records(prices_csv@) {
                        Some(rows) => table_of(rows, true) == Err::<
                            Map<u32, Decimal>,
                            ConfigError,
                        >(e),
                        None => e == ConfigError::NotATable,
                    }
                },
            },
    {
        let ready = catalog.is_ready();
        if !ready {
            return Err(ConfigError::CatalogNotReady);
        }
        let prices = match read_csv(prices_csv, catalog) {
            Ok(prices) => prices,
            Err(e) => {
                return Err(e);
            },
        };
        let mut discrete_list: Vec<Discrete> = Vec::new();
        discrete_list.push(Discrete::with_none(DiscreteFilter::Type));
        discrete_list.push(Discrete::faction(config.faction.clone()));
        discrete_list.push(Discrete::rarity(config.rarity.clone()));
        discrete_list.push(Discrete::foil(config.foil.clone()));
        discrete_list.push(Discrete::with_none(DiscreteFilter::Source));
        let categories = categories_of(&config.faction);
        let colors = colors_of(&config.foil, &config.rarity);
        let cards_number: u32 = match filter_cards(catalog, Some(categories), Some(colors)) {
            Some(cards) => {
                proof {
                    lemma_filter_members(
                        catalog.cards(),
                        |card: NftCard| card.passes(Some(categories), Some(colors)),
                    );
                    assert(cards@.len() == cards@.map_values(|card: &NftCard| *card).len());
                }
                cards.len() as u32
            },
            None => 0,
        };
        Ok(Store { prices, config, cards_number, discrete_list })
    }

    /// Gives the cheap rows of a page, in the order of the page.
    pub fn find_cheap_cards(&self, cards: MarketSecondaryResponse) -> (kept: Vec<Secondary>)
        ensures
            kept@ == cheap_listings(cards.list@, self.prices@),
    {
        cheap_cards(&cards.list, &self.prices)
    }

    /// The question for the summary rows of the cards that are scanned: the
    /// first page, as long as all the cards that the settings select, cheapest
    /// first, narrowed by `discrete_list`, or by the filters of the settings
    /// where none is given.
    pub fn scan_category_cards(&self, discrete_list: Option<Vec<Discrete>>) -> (query:
        MarketSecondaryQuery)
        ensures
            query.chain_nft_id == NftId::Cards.wire_code(),
            query.page_number == 1,
            query.page_size == self.cards_number,
            query.sort_type == NftSortType::PriceAscending.wire_code(),
            match discrete_list {
                Some(list) => query.discrete_list == list,
                None => query.discrete_list@.len() == self.discrete_list@.len() && forall|i: int|
                    0 <= i < self.discrete_list@.len() ==> same_choice(
                        #[trigger] query.discrete_list@[i],
                        self.discrete_list@[i],
                    ),
            },
    {
        let list = match discrete_list {
            Some(list) => list,
            None => self.discrete_list.clone(),
        };
        market_secondary_query(
            NftId::Cards,
            1,
            self.cards_number,
            NftSortType::PriceAscending,
            list,
        )
    }

    /// The question for the offers of card `card_id`: the first page, by
    /// price per unit of experience, cheapest first.
    pub fn scan_card_home(&self, card_id: u32) -> (query: MarketHomeQuery)
        ensures
            query.coin_id == 1,
            query.continuity_list@.len() == 1,
            query.continuity_list@[0].is_level(),
            query.page_number == 1,
            query.page_size == crate::market_home::MARKET_HOME_PAGE_SIZE,
            query.first_category_id == NftId::Cards.wire_code(),
            query.second_category_id == card_id,
            query.sort_type == MarketHomeSortType::PriceExpAscending.wire_code(),
    {
        market_home_query(NftId::Cards, card_id, 1, MarketHomeSortType::PriceExpAscending)
    }
}

/// Whether two choices say the same.
pub open spec fn same_choice(a: Discrete, b: Discrete) -> bool {
    &&& a.filter_name == b.filter_name
    &&& a.filter_value_list@ == b.filter_value_list@
    &&& a.value_id_list@ == b.value_id_list@
    &&& a.filter_id_list@ == b.filter_id_list@
}

/// Whether `list` holds one choice for each attribute, in the order type,
/// faction, rarity, foil and source, with what is chosen of each.
pub open spec fn are_filters(
    list: Seq<Discrete>,
    types: Seq<String>,
    factions: Seq<String>,
    rarities: Seq<String>,
    foils: Seq<String>,
    sources: Seq<String>,
) -> bool {
    &&& list.len() == 5
    &&& list[0].chooses(DiscreteFilter::Type, types)
    &&& list[1].chooses(DiscreteFilter::Faction, factions)
    &&& list[2].chooses(DiscreteFilter::Rarity, rarities)
    &&& list[3].chooses(DiscreteFilter::Foil, foils)
    &&& list[4].chooses(DiscreteFilter::Source, sources)
}

/// Whether `list` holds the filters for the common neutral cards, plain and
/// gold: every type, the neutral faction, the common rarity, both foils, and
/// every source.
pub open spec fn are_neutral_filters(list: Seq<Discrete>) -> bool {
    exists|factions: Seq<String>, rarities: Seq<String>, foils: Seq<String>|
        #[trigger] are_filters(list, Seq::empty(), factions, rarities, foils, Seq::empty())
            && factions.len() == 1 && factions[0]@ == "Neutral"@ && rarities.len() == 1
            && rarities[0]@ == "Common"@ && foils.len() == 2 && foils[0]@ == "Regular"@
            && foils[1]@ == "Gold"@
}

/// The filters for the common neutral cards, plain and gold.
pub fn neutral_filters() -> (list: Vec<Discrete>)
    ensures
        are_neutral_filters(list@),
{
    let mut factions: Vec<String> = Vec::new();
    factions.push("Neutral".to_string());
    let mut rarities: Vec<String> = Vec::new();
    rarities.push("Common".to_string());
    let mut foils: Vec<String> = Vec::new();
    foils.push("Regular".to_string());
    foils.push("Gold".to_string());
    let ghost chosen = (factions@, rarities@, foils@);
    let mut list: Vec<Discrete> = Vec::new();
    list.push(Discrete::filter_type(Vec::new()));
    list.push(Discrete::faction(factions));
    list.push(Discrete::rarity(rarities));
    list.push(Discrete::foil(foils));
    list.push(Discrete::source(Vec::new()));
    assert(are_filters(list@, Seq::empty(), chosen.0, chosen.1, chosen.2, Seq::empty()));
    list
}

/// How many rows the full list of the secondary market is asked for at once.
pub const FULL_SCAN_PAGE_SIZE: u32 = 222;

/// The question for the full list of the secondary market: every card, the
/// dearest first, all on one page.
pub fn full_list_query() -> (query: MarketSecondaryQuery)
    ensures
        query.chain_nft_id == NftId::Cards.wire_code(),
        query.page_number == 1,
        query.page_size == FULL_SCAN_PAGE_SIZE,
        query.sort_type == NftSortType::PriceDescending.wire_code(),
        are_filters(
            query.discrete_list@,
            Seq::empty(),
            Seq::empty(),
            Seq::empty(),
            Seq::empty(),
            Seq::empty(),
        ),
{
    let mut list: Vec<Discrete> = Vec::new();
    list.push(Discrete::filter_type(Vec::new()));
    list.push(Discrete::faction(Vec::new()));
    list.push(Discrete::rarity(Vec::new()));
    list.push(Discrete::foil(Vec::new()));
    list.push(Discrete::source(Vec::new()));
    market_secondary_query(
        NftId::Cards,
        1,
        FULL_SCAN_PAGE_SIZE,
        NftSortType::PriceDescending,
        list,
    )
}

/// Whether `cells` is the row of the table for `listing`: the Chinese name of
/// its card, its number, its floor price, how many are on sale, and how many
/// were sold.
pub open spec fn is_table_row(cells: Seq<Seq<char>>, listing: Secondary) -> bool {
    &&& cells.len() == 5
    &&& exists|card: NftCardId|
        card.wire_code() == listing.secondary_id && cells[0] == #[trigger] card.name_cn()
    &&& cells[1] == digits_of(listing.secondary_id as nat)
    &&& cells[2] == listing.floor_price@
    &&& cells[3] == digits_of(listing.quantity as nat)
    &&& cells[4] == digits_of(listing.volume as nat)
}

/// Whether `rows` holds the row of the table for each of `listings`, in
/// their order.
pub open spec fn are_table_rows(rows: Seq<Seq<Seq<char>>>, listings: Seq<Secondary>) -> bool {
    &&& rows.len() == listings.len()
    &&& forall|i: int| 0 <= i < listings.len() ==> is_table_row(#[trigger] rows[i], listings[i])
}

/// Whether the catalog has no card with the number `id`.
pub open spec fn no_such_card(id: u32) -> bool {
    forall|card: NftCardId| #[trigger] card.wire_code() != id
}

/// Gives the rows of the table of the secondary market, one for every row of
/// `listings`, in their order: `None` exactly when a row is of a card that
/// the catalog does not have.
pub fn secondary_table_rows(listings: &Vec<Secondary>) -> (rows: Option<Vec<Vec<String>>>)
    ensures
        match rows {
            Some(table) => are_table_rows(table.deep_view(), listings@),
            None => exists|i: int|
                0 <= i < listings@.len() && no_such_card((#[trigger] listings@[i]).secondary_id),
        },
{
    let mut table: Vec<Vec<String>> = Vec::new();
    let mut i: usize = 0;
    while i < listings.len()
        invariant
            i <= listings@.len(),
            table@.len() == i,
            forall|k: int|
                0 <= k < i ==> is_table_row((#[trigger] table@[k]).deep_view(), listings@[k]),
        decreases listings@.len() - i,
    {
        let listing = &listings[i];
        let card = match NftCardId::from_id(listing.secondary_id) {
            Some(card) => card,
            None => {
                assert(no_such_card(listings@[i as int].secondary_id));
                return None;
            },
        };
        let mut cells: Vec<String> = Vec::new();
        cells.push(card.to_chinese().to_string());
        cells.push(number_text(listing.secondary_id as u128));
        cells.push(listing.floor_price.clone());
        cells.push(number_text(listing.quantity as u128));
        cells.push(number_text(listing.volume as u128));
        proof {
            let texts = cells.deep_view();
            assert(texts.len() == 5);
            assert(texts[0] == cells@[0]@);
            assert(texts[1] == cells@[1]@);
            assert(texts[2] == cells@[2]@);
            assert(texts[3] == cells@[3]@);
            assert(texts[4] == cells@[4]@);
            assert(texts[0] == card.name_cn());
            assert(is_table_row(texts, listings@[i as int]));
        }
        table.push(cells);
        i += 1;
    }
    proof {
        let rows = table.deep_view();
        assert(rows.len() == table@.len());
        assert forall|k: int| 0 <= k < listings@.len() implies is_table_row(
            #[trigger] rows[k],
            listings@[k],
        ) by {
            assert(rows[k] == table@[k].deep_view());
        }
    }
    Some(table)
}

/// The heads of the columns of the table of the secondary market.
pub open spec fn table_header() -> Seq<Seq<char>> {
    seq!["卡牌名称"@, "ID"@, "最低价格"@, "在售数量"@, "成交数量"@]
}

/// Gives the heads of the columns of the table of the secondary market.
pub fn secondary_table_header() -> (header: Vec<String>)
    ensures
        header.deep_view() == table_header(),
{
    let mut header: Vec<String> = Vec::new();
    header.push("卡牌名称".to_string());
    header.push("ID".to_string());
    header.push("最低价格".to_string());
    header.push("在售数量".to_string());
    header.push("成交数量".to_string());
    proof {
        let texts = header.deep_view();
        assert(texts.len() == 5);
        assert(texts[0] == header@[0]@);
        assert(texts[1] == header@[1]@);
        assert(texts[2] == header@[2]@);
        assert(texts[3] == header@[3]@);
        assert(texts[4] == header@[4]@);
        assert(texts =~= table_header());
    }
    header
}

/// A table as text, with lines drawn round its cells.
pub uninterp spec fn table_text(header: Seq<Seq<char>>, rows: Seq<Seq<Seq<char>>>) -> Seq<char>;

/// Draws a table with `comfy_table::Table`: the table is made with
/// `Table::new`, gets `header` by `Table::set_header` and each of `rows` by
/// `Table::add_row`, and is written out as `Table` displays it. The text is
/// what `comfy_table` gives for these cells; it is drawn without regard to a
/// terminal.
#[verifier::external_body]
fn render_table(header: &Vec<String>, rows: &Vec<Vec<String>>) -> (text: String)
    ensures
        text@ == table_text(header.deep_view(), rows.deep_view()),
{
    let mut table = comfy_table::Table::new();
    table.set_header(header);
    for row in rows {
        table.add_row(row);
    }
    table.to_string()
}

/// Draws the table of the secondary market: a head, and one row for every
/// row of `listings`. `None` exactly when a row is of a card that the catalog
/// does not have.
pub fn secondary_table(listings: &Vec<Secondary>) -> (table: Option<String>)
    ensures
        match table {
            Some(text) => exists|rows: Seq<Seq<Seq<char>>>|
                are_table_rows(rows, listings@) && text@ == #[trigger] table_text(
                    table_header(),
                    rows,
                ),
            None => exists|i: int|
                0 <= i < listings@.len() && no_such_card((#[trigger] listings@[i]).secondary_id),
        },
{
    match secondary_table_rows(listings) {
        Some(rows) => {
            let header = secondary_table_header();
            Some(render_table(&header, &rows))
        },
        None => None,
    }
}

/// The cards of one faction, in the order of the catalog.
pub open spec fn ids_of_faction(cards: Seq<NftCard>, category: NftCardCategory) -> Seq<NftCardId> {
    filtered_ids(cards, Some(only(category)), None)
}

/// The set that holds `category` alone.
pub open spec fn only(category: NftCardCategory) -> CategorySet {
    CategorySet {
        animal: category == NftCardCategory::Animal,
        plant: category == NftCardCategory::Plant,
        zombie: category == NftCardCategory::Zombie,
        neutral: category == NftCardCategory::Neutral,
        dragon: category == NftCardCategory::Dragon,
        mech: category == NftCardCategory::Mech,
    }
}

/// Gives the set that holds `category` alone.
pub fn only_category(category: NftCardCategory) -> (set: CategorySet)
    ensures
        set == only(category),
{
    let mut set = CategorySet::new();
    set.insert(category);
    proof {
        assert(set.has(NftCardCategory::Animal) == (category == NftCardCategory::Animal));
        assert(set.has(NftCardCategory::Plant) == (category == NftCardCategory::Plant));
        assert(set.has(NftCardCategory::Zombie) == (category == NftCardCategory::Zombie));
        assert(set.has(NftCardCategory::Neutral) == (category == NftCardCategory::Neutral));
        assert(set.has(NftCardCategory::Dragon) == (category == NftCardCategory::Dragon));
        assert(set.has(NftCardCategory::Mech) == (category == NftCardCategory::Mech));
    }
    set
}

/// Gives the cards whose offers are scanned one by one: the animals, the
/// dragons, the mechs, the plants, the zombies and the neutral cards, in this
/// order, each faction in the order of the catalog. The error comes exactly
/// when the catalog is not filled.
pub fn cards_by_faction(catalog: &NftCardMap) -> (interests: Result<Vec<NftCardId>, CatalogError>)
    ensures
        interests is Ok <==> catalog.ready(),
        interests matches Ok(ids) ==> are_cards_by_faction(ids@, catalog.cards()),
{
    let mut animals = filter_cards_id_only(catalog, Some(only_category(NftCardCategory::Animal)), None)?;
    let mut dragons = filter_cards_id_only(catalog, Some(only_category(NftCardCategory::Dragon)), None)?;
    let mut mechs = filter_cards_id_only(catalog, Some(only_category(NftCardCategory::Mech)), None)?;
    let mut plants = filter_cards_id_only(catalog, Some(only_category(NftCardCategory::Plant)), None)?;
    let mut zombies = filter_cards_id_only(catalog, Some(only_category(NftCardCategory::Zombie)), None)?;
    let mut neutrals = filter_cards_id_only(catalog, Some(only_category(NftCardCategory::Neutral)), None)?;
    animals.append(&mut dragons);
    animals.append(&mut mechs);
    animals.append(&mut plants);
    animals.append(&mut zombies);
    animals.append(&mut neutrals);
    Ok(animals)
}

/// Whether `ids` holds all cards faction by faction: the animals, the
/// dragons, the mechs, the plants, the zombies and the neutral cards.
pub open spec fn are_cards_by_faction(ids: Seq<NftCardId>, cards: Seq<NftCard>) -> bool {
    ids == ids_of_faction(cards, NftCardCategory::Animal) + ids_of_faction(
        cards,
        NftCardCategory::Dragon,
    ) + ids_of_faction(cards, NftCardCategory::Mech) + ids_of_faction(
        cards,
        NftCardCategory::Plant,
    ) + ids_of_faction(cards, NftCardCategory::Zombie) + ids_of_faction(
        cards,
        NftCardCategory::Neutral,
    )
}

/// How many candidates of a scan are looked at at a time.
pub const SCAN_FAN_OUT: usize = 3;

/// How many cards are fetched at a time where every card is scanned.
pub const CARD_FAN_OUT: usize = 10;

/// What a scan is run with: the question for the summary rows, the rule by
/// which offers are judged, and how many candidates are looked at at a time.
/// The rule holds the highest level that is bought; the highest price is the
/// reference price of each candidate's card, by [`Store::judge`].
#[derive(Debug)]
pub struct ScanPlan {
    pub query: MarketSecondaryQuery,
    pub engine: BuyDecisionEngine,
    pub width: usize,
}

impl Store {
    /// Whether `query` asks for the first page of the cards that are scanned,
    /// as long as all the cards that the settings select, cheapest first.
    pub open spec fn asks_for_scan(self, query: MarketSecondaryQuery) -> bool {
        &&& query.chain_nft_id == NftId::Cards.wire_code()
        &&& query.page_number == 1
        &&& query.page_size == self.cards_number
        &&& query.sort_type == NftSortType::PriceAscending.wire_code()
    }

    /// Whether `query` is narrowed by the filters of the settings.
    pub open spec fn narrowed_by_settings(self, query: MarketSecondaryQuery) -> bool {
        &&& query.discrete_list@.len() == self.discrete_list@.len()
        &&& forall|i: int|
            0 <= i < self.discrete_list@.len() ==> same_choice(
                #[trigger] query.discrete_list@[i],
                self.discrete_list@[i],
            )
    }

    /// The question for the common neutral cards, plain and gold.
    pub fn scan_neutrals(&self) -> (query: MarketSecondaryQuery)
        ensures
            self.asks_for_scan(query),
            are_neutral_filters(query.discrete_list@),
    {
        self.scan_category_cards(Some(neutral_filters()))
    }

    /// The question for the full list of the secondary market: every card,
    /// the dearest first, all on one page.
    pub fn scan_cards_full_secondary(&self) -> (query: MarketSecondaryQuery)
        ensures
            query.chain_nft_id == NftId::Cards.wire_code(),
            query.page_number == 1,
            query.page_size == FULL_SCAN_PAGE_SIZE,
            query.sort_type == NftSortType::PriceDescending.wire_code(),
            are_filters(
                query.discrete_list@,
                Seq::empty(),
                Seq::empty(),
                Seq::empty(),
                Seq::empty(),
                Seq::empty(),
            ),
    {
        full_list_query()
    }

    /// The cards whose offers are scanned one by one: all cards, faction by
    /// faction. The error comes exactly when the catalog is not filled.
    pub fn scan_cards_full_home(&self, catalog: &NftCardMap) -> (interests: Result<
        Vec<NftCardId>,
        CatalogError,
    >)
        ensures
            interests is Ok <==> catalog.ready(),
            interests matches Ok(ids) ==> are_cards_by_faction(ids@, catalog.cards()),
    {
        cards_by_faction(catalog)
    }

    /// The scan by the filters of the settings: cards up to the highest level
    /// are bought, three candidates are looked at at a time.
    pub fn filter_scan(&self) -> (plan: ScanPlan)
        ensures
            self.asks_for_scan(plan.query),
            self.narrowed_by_settings(plan.query),
            plan.engine.max_level == DEFAULT_MAX_LEVEL,
            plan.width == SCAN_FAN_OUT,
    {
        ScanPlan {
            query: self.scan_category_cards(Some(self.discrete_list.clone())),
            engine: BuyDecisionEngine::new(DEFAULT_MAX_LEVEL),
            width: SCAN_FAN_OUT,
        }
    }

    /// The scan of all cards that the settings select: cards up to the
    /// highest level are bought, three candidates are looked at at a time.
    pub fn custom_scan_full(&self) -> (plan: ScanPlan)
        ensures
            self.asks_for_scan(plan.query),
            self.narrowed_by_settings(plan.query),
            plan.engine.max_level == DEFAULT_MAX_LEVEL,
            plan.width == SCAN_FAN_OUT,
    {
        ScanPlan {
            query: self.scan_category_cards(None),
            engine: BuyDecisionEngine::new(DEFAULT_MAX_LEVEL),
            width: SCAN_FAN_OUT,
        }
    }

    /// The scan of the common neutral cards: cards of every level are bought,
    /// three candidates are looked at at a time.
    pub fn buy_nft_strategy_full(&self) -> (plan: ScanPlan)
        ensures
            self.asks_for_scan(plan.query),
            are_neutral_filters(plan.query.discrete_list@),
            plan.engine.max_level == u32::MAX,
            plan.width == SCAN_FAN_OUT,
    {
        ScanPlan {
            query: self.scan_neutrals(),
            engine: BuyDecisionEngine::new(u32::MAX),
            width: SCAN_FAN_OUT,
        }
    }

    /// Decides what to do about one candidate of the scan that runs by
    /// `plan`, from what fetching its offers gave. The offers are judged by
    /// the rule of the plan, with its highest level, against the reference
    /// price of the candidate's card in this store: the first offer is bought
    /// if it is of a card up to that level and costs no more than the
    /// reference price. A fetch that failed ends the matter, and a card
    /// without a reference price is not bought.
    pub fn judge(
        &self,
        plan: &ScanPlan,
        candidate: &Secondary,
        fetched: Result<MarketHomeResponse, ApiError>,
    ) -> (evaluation: Evaluation)
        ensures
            plan.engine.evaluates_candidate(*candidate, self.prices@, fetched, evaluation),
    {
        plan.engine.evaluate_candidate(candidate, &self.prices, fetched)
    }

    /// Decides what to do about one candidate of a scan, from what fetching
    /// its offers gave: the first offer is bought if it is of a card up to the
    /// highest level and costs no more than the reference price of the card.
    /// A fetch that failed ends the matter, and a card without a reference
    /// price is not bought.
    pub fn buy_cheap_cards(
        &self,
        candidate: &Secondary,
        fetched: Result<MarketHomeResponse, ApiError>,
    ) -> (evaluation: Evaluation)
        ensures
            match fetched {
                Err(error) => evaluation == Evaluation::Done(Outcome::FetchFailed { error }),
                Ok(_) => if self.prices@.contains_key(candidate.secondary_id) {
                    BuyDecisionEngine { max_level: DEFAULT_MAX_LEVEL }.evaluates(
                        fetched,
                        self.prices@[candidate.secondary_id],
                        evaluation,
                    )
                } else {
                    evaluation == Evaluation::Done(Outcome::NoQualifyingListing)
                },
            },
    {
        BuyDecisionEngine::new(DEFAULT_MAX_LEVEL).evaluate_candidate(
            candidate,
            &self.prices,
            fetched,
        )
    }

    /// The pairs of a plain card and its gold card that are scanned by the
    /// rule of the plain card's average.
    pub fn buy_nft_strategy_1(&self) -> (pairs: Vec<(NftCardId, NftCardId)>)
        ensures
            pairs@.len() == plain_cards_with_gold().len(),
            forall|i: int|
                0 <= i < pairs@.len() ==> (#[trigger] pairs@[i]).0 == plain_cards_with_gold()[i]
                    && pairs@[i].1 == gold_of(pairs@[i].0),
    {
        gold_pairs()
    }

    /// Decides which offers of a gold card are bought, by the rule of the
    /// plain card's average, from what fetching the offers of both gave.
    pub fn process_card_gold(&self, plain: &MarketHomeResponse, gold: &MarketHomeResponse) -> (decided:
        Result<Vec<usize>, NumericError>)
        ensures
            match decided {
                Ok(picked) => if plain.list@.len() < CARD_NUMBER_GREATER {
                    picked@.len() == 0
                } else {
                    top_sum(plain.list@) matches Ok(sum) && picks_cheap_gold(
                        picked@,
                        gold.list@,
                        sum,
                    )
                },
                Err(e) => plain.list@.len() >= CARD_NUMBER_GREATER && match top_sum(plain.list@) {
                    Err(expected) => e == expected,
                    Ok(sum) => e == NumericError::Overflow && exists|i: int|
                        0 <= i < gold_offers(gold.list@).len() && !gold_is_comparable(
                            #[trigger] gold.list@[i],
                            sum,
                        ),
                },
            },
    {
        cheap_gold_offers(&plain.list, &gold.list)
    }

    /// The cards that are scanned by the rule of the half average: the
    /// neutral cards, in the order of the catalog. The error comes exactly
    /// when the catalog is not filled.
    pub fn buy_nft_strategy_with_five_avg(&self, catalog: &NftCardMap) -> (neutrals: Result<
        Vec<NftCardId>,
        CatalogError,
    >)
        ensures
            neutrals is Ok <==> catalog.ready(),
            neutrals matches Ok(ids) ==> ids@ == ids_of_faction(
                catalog.cards(),
                NftCardCategory::Neutral,
            ),
    {
        filter_cards_id_only(catalog, Some(only_category(NftCardCategory::Neutral)), None)
    }
}

} // verus!
