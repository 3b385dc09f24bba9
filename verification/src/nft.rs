//! The catalog of cards: what each card is, and how cards are found by
//! number, by name, by faction and by colour.

pub use crate::card_id::{get_nft_card_category, get_nft_card_color, NftCardId, CARD_COUNT};
use crate::sequences::lemma_filter_next;
use crate::text::str_eq;
use vstd::prelude::*;
use vstd::string::*;

verus! {

/// The family of items a market query addresses.
#[derive(Debug, Clone, Copy, PartialEq, Eq, Structural)]
pub enum NftId {
    Cards,
    Boxes,
    Fragments,
}

impl NftId {
    /// The number the marketplace uses for this family.
    pub open spec fn wire_code(self) -> u32 {
        match self {
            NftId::Cards => 12,
            NftId::Boxes => 13,
            NftId::Fragments => 15,
        }
    }

    /// Gives the number the marketplace uses for this family.
    pub fn to_wire_code(self) -> (code: u32)
        ensures
            code == self.wire_code(),
    {
        match self {
            NftId::Cards => 12,
            NftId::Boxes => 13,
            NftId::Fragments => 15,
        }
    }
}

/// The faction of a card.
#[derive(Debug, Clone, Copy, PartialEq, Eq, Hash, Structural)]
pub enum NftCardCategory {
    Animal,
    Plant,
    Zombie,
    Neutral,
    Dragon,
    Mech,
}

/// The colour of a card: its rarity, and whether it is a gold card.
#[derive(Debug, Clone, Copy, PartialEq, Eq, Hash, Structural)]
pub enum NftCardColor {
    Orange,
    OrangeGold,
    Purple,
    PurpleGold,
    Blue,
    BlueGold,
    White,
    WhiteGold,
}

/// The orders in which the marketplace can list summary rows.
#[derive(Debug, Clone, Copy, PartialEq, Eq, Structural)]
pub enum NftSortType {
    PriceAscending,
    PriceDescending,
    SalesVolumeAscending,
    SalesVolumeDescending,
    QuantityAscending,
    QuantityDescending,
}

impl NftSortType {
    /// The number the marketplace uses for this order.
    pub open spec fn wire_code(self) -> u32 {
        match self {
            NftSortType::PriceAscending => 0,
            NftSortType::PriceDescending => 1,
            NftSortType::SalesVolumeAscending => 2,
            NftSortType::SalesVolumeDescending => 3,
            NftSortType::QuantityAscending => 4,
            NftSortType::QuantityDescending => 5,
        }
    }

    /// Gives the number the marketplace uses for this order.
    pub fn to_wire_code(self) -> (code: u32)
        ensures
            code == self.wire_code(),
    {
        match self {
            NftSortType::PriceAscending => 0,
            NftSortType::PriceDescending => 1,
            NftSortType::SalesVolumeAscending => 2,
            NftSortType::SalesVolumeDescending => 3,
            NftSortType::QuantityAscending => 4,
            NftSortType::QuantityDescending => 5,
        }
    }
}

/// A set of factions, used to narrow the catalog.
#[derive(Debug, Clone, Copy, PartialEq, Eq, Structural)]
pub struct CategorySet {
    pub animal: bool,
    pub plant: bool,
    pub zombie: bool,
    pub neutral: bool,
    pub dragon: bool,
    pub mech: bool,
}

impl CategorySet {
    /// Whether `category` is in the set.
    pub open spec fn has(self, category: NftCardCategory) -> bool {
        match category {
            NftCardCategory::Animal => self.animal,
            NftCardCategory::Plant => self.plant,
            NftCardCategory::Zombie => self.zombie,
            NftCardCategory::Neutral => self.neutral,
            NftCardCategory::Dragon => self.dragon,
            NftCardCategory::Mech => self.mech,
        }
    }

    /// Whether the set holds no faction.
    pub open spec fn none(self) -> bool {
        forall|category: NftCardCategory| !self.has(category)
    }

    /// The set without any faction.
    pub fn new() -> (set: CategorySet)
        ensures
            set.none(),
    {
        CategorySet {
            animal: false,
            plant: false,
            zombie: false,
            neutral: false,
            dragon: false,
            mech: false,
        }
    }

    /// Puts `category` into the set.
    pub fn insert(&mut self, category: NftCardCategory)
        ensures
            forall|other: NftCardCategory|
                final(self).has(other) == (other == category || old(self).has(other)),
    {
        match category {
            NftCardCategory::Animal => {
                self.animal = true;
            },
            NftCardCategory::Plant => {
                self.plant = true;
            },
            NftCardCategory::Zombie => {
                self.zombie = true;
            },
            NftCardCategory::Neutral => {
                self.neutral = true;
            },
            NftCardCategory::Dragon => {
                self.dragon = true;
            },
            NftCardCategory::Mech => {
                self.mech = true;
            },
        }
    }

    /// Whether `category` is in the set.
    pub fn contains(&self, category: NftCardCategory) -> (held: bool)
        ensures
            held == self.has(category),
    {
        match category {
            NftCardCategory::Animal => self.animal,
            NftCardCategory::Plant => self.plant,
            NftCardCategory::Zombie => self.zombie,
            NftCardCategory::Neutral => self.neutral,
            NftCardCategory::Dragon => self.dragon,
            NftCardCategory::Mech => self.mech,
        }
    }

    /// Whether the set holds no faction.
    pub fn is_empty(&self) -> (empty: bool)
        ensures
            empty == self.none(),
    {
        let empty = !(self.animal || self.plant || self.zombie || self.neutral || self.dragon
            || self.mech);
        proof {
            if !empty {
                if self.animal {
                    assert(self.has(NftCardCategory::Animal));
                } else if self.plant {
                    assert(self.has(NftCardCategory::Plant));
                } else if self.zombie {
                    assert(self.has(NftCardCategory::Zombie));
                } else if self.neutral {
                    assert(self.has(NftCardCategory::Neutral));
                } else if self.dragon {
                    assert(self.has(NftCardCategory::Dragon));
                } else {
                    assert(self.has(NftCardCategory::Mech));
                }
            }
        }
        empty
    }
}

/// A set of colours, used to narrow the catalog.
#[derive(Debug, Clone, Copy, PartialEq, Eq, Structural)]
pub struct ColorSet {
    pub orange: bool,
    pub orange_gold: bool,
    pub purple: bool,
    pub purple_gold: bool,
    pub blue: bool,
    pub blue_gold: bool,
    pub white: bool,
    pub white_gold: bool,
}

impl ColorSet {
    /// Whether `color` is in the set.
    pub open spec fn has(self, color: NftCardColor) -> bool {
        match color {
            NftCardColor::Orange => self.orange,
            NftCardColor::OrangeGold => self.orange_gold,
            NftCardColor::Purple => self.purple,
            NftCardColor::PurpleGold => self.purple_gold,
            NftCardColor::Blue => self.blue,
            NftCardColor::BlueGold => self.blue_gold,
            NftCardColor::White => self.white,
            NftCardColor::WhiteGold => self.white_gold,
        }
    }

    /// Whether the set holds no colour.
    pub open spec fn none(self) -> bool {
        forall|color: NftCardColor| !self.has(color)
    }

    /// The set without any colour.
    pub fn new() -> (set: ColorSet)
        ensures
            set.none(),
    {
        ColorSet {
            orange: false,
            orange_gold: false,
            purple: false,
            purple_gold: false,
            blue: false,
            blue_gold: false,
            white: false,
            white_gold: false,
        }
    }

    /// Puts `color` into the set.
    pub fn insert(&mut self, color: NftCardColor)
        ensures
            forall|other: NftCardColor|
                final(self).has(other) == (other == color || old(self).has(other)),
    {
        match color {
            NftCardColor::Orange => {
                self.orange = true;
            },
            NftCardColor::OrangeGold => {
                self.orange_gold = true;
            },
            NftCardColor::Purple => {
                self.purple = true;
            },
            NftCardColor::PurpleGold => {
                self.purple_gold = true;
            },
            NftCardColor::Blue => {
                self.blue = true;
            },
            NftCardColor::BlueGold => {
                self.blue_gold = true;
            },
            NftCardColor::White => {
                self.white = true;
            },
            NftCardColor::WhiteGold => {
                self.white_gold = true;
            },
        }
    }

    /// Whether `color` is in the set.
    pub fn contains(&self, color: NftCardColor) -> (held: bool)
        ensures
            held == self.has(color),
    {
        match color {
            NftCardColor::Orange => self.orange,
            NftCardColor::OrangeGold => self.orange_gold,
            NftCardColor::Purple => self.purple,
            NftCardColor::PurpleGold => self.purple_gold,
            NftCardColor::Blue => self.blue,
            NftCardColor::BlueGold => self.blue_gold,
            NftCardColor::White => self.white,
            NftCardColor::WhiteGold => self.white_gold,
        }
    }

    /// Whether the set holds no colour.
    pub fn is_empty(&self) -> (empty: bool)
        ensures
            empty == self.none(),
    {
        let empty = !(self.orange || self.orange_gold || self.purple || self.purple_gold
            || self.blue || self.blue_gold || self.white || self.white_gold);
        proof {
            if !empty {
                if self.orange {
                    assert(self.has(NftCardColor::Orange));
                } else if self.orange_gold {
                    assert(self.has(NftCardColor::OrangeGold));
                } else if self.purple {
                    assert(self.has(NftCardColor::Purple));
                } else if self.purple_gold {
                    assert(self.has(NftCardColor::PurpleGold));
                } else if self.blue {
                    assert(self.has(NftCardColor::Blue));
                } else if self.blue_gold {
                    assert(self.has(NftCardColor::BlueGold));
                } else if self.white {
                    assert(self.has(NftCardColor::White));
                } else {
                    assert(self.has(NftCardColor::WhiteGold));
                }
            }
        }
        empty
    }
}

/// What the catalog records of one card.
#[derive(Debug)]
pub struct NftCard {
    /// The number the marketplace uses for the card.
    pub value: u32,
    pub id: NftCardId,
    pub category: NftCardCategory,
    pub color: NftCardColor,
    pub name_en: String,
    pub name_cn: &'static str,
}

impl NftCard {
    /// Whether this is the catalog's record of card `id`.
    pub open spec fn describes(self, id: NftCardId) -> bool {
        &&& self.value == id.wire_code()
        &&& self.id == id
        &&& self.category == id.category()
        &&& self.color == id.color()
        &&& self.name_en@ == id.name_en()
        &&& self.name_cn@ == id.name_cn()
    }

    /// Whether this card passes the two filters. A filter that is absent or
    /// empty lets every card pass.
    pub open spec fn passes(self, category: Option<CategorySet>, colors: Option<ColorSet>) -> bool {
        &&& match category {
            Some(set) => set.none() || set.has(self.category),
            None => true,
        }
        &&& match colors {
            Some(set) => set.none() || set.has(self.color),
            None => true,
        }
    }

    /// A record made of the given parts.
    pub fn new(
        value: u32,
        id: NftCardId,
        category: NftCardCategory,
        color: NftCardColor,
        name_en: String,
        name_cn: &'static str,
    ) -> (card: Self)
        ensures
            card.value == value,
            card.id == id,
            card.category == category,
            card.color == color,
            card.name_en == name_en,
            card.name_cn == name_cn,
    {
        Self { value, id, category, color, name_en, name_cn }
    }

    /// The number the marketplace uses for the card.
    pub fn value(&self) -> (value: u32)
        ensures
            value == self.value,
    {
        self.value
    }

    /// The card this is the record of.
    pub fn id(&self) -> (id: &NftCardId)
        ensures
            *id == self.id,
    {
        &self.id
    }

    /// The faction of the card.
    pub fn card_type(&self) -> (category: &NftCardCategory)
        ensures
            *category == self.category,
    {
        &self.category
    }

    /// The Chinese name of the card.
    pub fn name_cn(&self) -> (name: &'static str)
        ensures
            name == self.name_cn,
    {
        self.name_cn
    }

    /// The English name of the card.
    pub fn name_en(&self) -> (name: &str)
        ensures
            name@ == self.name_en@,
    {
        self.name_en.as_str()
    }

    /// Whether this card passes the two filters.
    pub fn passes_filters(&self, category: &Option<CategorySet>, colors: &Option<ColorSet>) -> (ok:
        bool)
        ensures
            ok == self.passes(*category, *colors),
    {
        let category_match = match category {
            Some(set) => set.is_empty() || set.contains(self.category),
            None => true,
        };
        let color_match = match colors {
            Some(set) => set.is_empty() || set.contains(self.color),
            None => true,
        };
        category_match && color_match
    }
}

/// The catalog as a program holds it: empty until it is filled, and from then
/// on one record for every card, in the order of the catalog.
#[derive(Debug)]
pub struct NftCardMap {
    cards: Vec<NftCard>,
}

impl NftCardMap {
    #[verifier::type_invariant]
    spec fn well_formed(self) -> bool {
        self.cards@.len() == 0 || {
            &&& self.cards@.len() == CARD_COUNT
            &&& forall|i: int|
                0 <= i < CARD_COUNT ==> (#[trigger] self.cards@[i]).describes(NftCardId::nth(i))
        }
    }

    /// Whether the catalog has been filled.
    pub closed spec fn ready(self) -> bool {
        self.cards@.len() == CARD_COUNT
    }

    /// The records the catalog holds: none before it is filled.
    pub closed spec fn cards(self) -> Seq<NftCard> {
        self.cards@
    }

    /// Whether the catalog has been filled. A filled catalog has one record
    /// for every card, in the order of the catalog.
    pub fn is_ready(&self) -> (ready: bool)
        ensures
            ready == self.ready(),
            !ready ==> self.cards().len() == 0,
            ready ==> self.cards().len() == CARD_COUNT,
            ready ==> forall|i: int|
                0 <= i < CARD_COUNT ==> (#[trigger] self.cards()[i]).describes(NftCardId::nth(i)),
    {
        proof {
            use_type_invariant(self);
        }
        self.cards.len() != 0
    }

    /// A catalog that is not filled yet: every search in it finds nothing.
    pub fn new() -> (map: NftCardMap)
        ensures
            !map.ready(),
    {
        NftCardMap { cards: Vec::new() }
    }
}

/// The records of all cards, in the order of the catalog.
pub fn generate_nft_card_map() -> (cards: Vec<NftCard>)
    ensures
        cards@.len() == CARD_COUNT,
        forall|i: int| 0 <= i < CARD_COUNT ==> (#[trigger] cards@[i]).describes(NftCardId::nth(i)),
{
    let mut cards: Vec<NftCard> = Vec::new();
    let mut i: usize = 0;
    while i < CARD_COUNT
        invariant
            i <= CARD_COUNT,
            cards@.len() == i,
            forall|j: int| 0 <= j < i ==> (#[trigger] cards@[j]).describes(NftCardId::nth(j)),
        decreases CARD_COUNT - i,
    {
        let card = NftCardId::at(i);
        let value = card.to_wire_code();
        let name_en = card.to_string();
        let name_cn = card.to_chinese();
        let color = get_nft_card_color(card);
        let category = get_nft_card_category(card);
        let record = NftCard::new(value, card, category, color, name_en, name_cn);
        cards.push(record);
        i += 1;
    }
    cards
}

/// Fills the catalog: from now on it holds one record for every card, in the
/// order of the catalog. A catalog that is filled already stays as it is.
pub fn init_nft_card_map(map: &mut NftCardMap)
    ensures
        final(map).ready(),
        final(map).cards().len() == CARD_COUNT,
        forall|i: int|
            0 <= i < CARD_COUNT ==> (#[trigger] final(map).cards()[i]).describes(NftCardId::nth(i)),
        old(map).ready() ==> *final(map) == *old(map),
{
    proof {
        use_type_invariant(&*map);
    }
    if map.cards.len() == 0 {
        map.cards = generate_nft_card_map();
    }
}

/// Finds the record of the card that the marketplace calls `value`: `None`
/// exactly when the catalog is not filled or has no such card.
pub fn get_card_by_value(map: &NftCardMap, value: u32) -> (found: Option<&NftCard>)
    ensures
        match found {
            Some(card) => map.ready() && card.value == value && map.cards().contains(*card)
                && card.describes(card.id),
            None => !map.ready() || forall|id: NftCardId| id.wire_code() != value,
        },
{
    match NftCardId::from_id(value) {
        Some(id) => {
            let found = get_card_by_id(map, id);
            proof {
                id.lemma_ordinal_nth();
                if found is Some {
                    assert(map.cards()[id.ordinal()] == *found->0);
                }
            }
            found
        },
        None => None,
    }
}

/// Finds the record of card `id`: `None` exactly when the catalog is not
/// filled.
pub fn get_card_by_id(map: &NftCardMap, id: NftCardId) -> (found: Option<&NftCard>)
    ensures
        found is Some <==> map.ready(),
        found matches Some(card) ==> card.describes(id) && map.cards()[id.ordinal()] == *card,
{
    proof {
        use_type_invariant(map);
        id.lemma_ordinal_nth();
    }
    if map.cards.len() == 0 {
        None
    } else {
        Some(&map.cards[id.to_ordinal()])
    }
}

/// Whether `id` is the first card of the catalog with the English name
/// `name`.
pub open spec fn is_first_named(id: NftCardId, name: Seq<char>) -> bool {
    &&& id.name_en() == name
    &&& forall|j: int| 0 <= j < id.ordinal() ==> (#[trigger] NftCardId::nth(j)).name_en() != name
}

/// The card that the English name `name` stands for, if any.
pub open spec fn resolve_name(name: Seq<char>) -> Option<NftCardId> {
    if exists|id: NftCardId| is_first_named(id, name) {
        Some(choose|id: NftCardId| is_first_named(id, name))
    } else {
        None
    }
}

/// A name stands for one card at most.
pub proof fn lemma_first_named_unique(a: NftCardId, b: NftCardId, name: Seq<char>)
    requires
        is_first_named(a, name),
        is_first_named(b, name),
    ensures
        a == b,
{
    a.lemma_ordinal_nth();
    b.lemma_ordinal_nth();
    if a.ordinal() < b.ordinal() {
        assert(NftCardId::nth(a.ordinal()).name_en() != name);
    } else if b.ordinal() < a.ordinal() {
        assert(NftCardId::nth(b.ordinal()).name_en() != name);
    }
}

/// Finds the record of the card whose English name is `name`: `None` exactly
/// when the catalog is not filled or no card has that name.
pub fn get_card_by_name<'a>(map: &'a NftCardMap, name: &str) -> (found: Option<&'a NftCard>)
    ensures
        match found {
            Some(card) => map.ready() && resolve_name(name@) == Some(card.id) && card.describes(
                card.id,
            ) && map.cards().contains(*card),
            None => !map.ready() || resolve_name(name@) is None,
        },
{
    proof {
        use_type_invariant(map);
    }
    let n = map.cards.len();
    let mut i: usize = 0;
    while i < n
        invariant
            i <= n,
            n == map.cards@.len(),
            n == 0 || n == CARD_COUNT,
            n == CARD_COUNT ==> forall|j: int|
                0 <= j < CARD_COUNT ==> (#[trigger] map.cards@[j]).describes(NftCardId::nth(j)),
            forall|j: int| 0 <= j < i ==> (#[trigger] NftCardId::nth(j)).name_en() != name@,
        decreases n - i,
    {
        let card = &map.cards[i];
        assert(map.cards@[i as int].describes(NftCardId::nth(i as int)));
        if str_eq(card.name_en.as_str(), name) {
            proof {
                let id = NftCardId::nth(i as int);
                NftCardId::lemma_nth_ordinal(i as int);
                assert(is_first_named(id, name@));
                lemma_first_named_unique(id, choose|c: NftCardId| is_first_named(c, name@), name@);
            }
            return Some(card);
        }
        i += 1;
    }
    proof {
        if n == CARD_COUNT {
            assert forall|id: NftCardId| !is_first_named(id, name@) by {
                id.lemma_ordinal_nth();
            }
        }
    }
    None
}

/// The records of the catalog that pass the two filters, in the order of the
/// catalog.
pub open spec fn filtered_cards(
    cards: Seq<NftCard>,
    category: Option<CategorySet>,
    colors: Option<ColorSet>,
) -> Seq<NftCard> {
    cards.filter(|card: NftCard| card.passes(category, colors))
}

/// Gives the records that pass the two filters, in the order of the catalog:
/// `None` exactly when the catalog is not filled. A filter that is absent or
/// empty lets every card pass.
pub fn filter_cards<'a>(
    map: &'a NftCardMap,
    category: Option<CategorySet>,
    colors: Option<ColorSet>,
) -> (found: Option<Vec<&'a NftCard>>)
    ensures
        found is Some <==> map.ready(),
        found matches Some(list) ==> list@.map_values(|card: &NftCard| *card) == filtered_cards(
            map.cards(),
            category,
            colors,
        ),
{
    proof {
        use_type_invariant(map);
    }
    let n = map.cards.len();
    if n == 0 {
        return None;
    }
    let mut list: Vec<&NftCard> = Vec::new();
    let mut i: usize = 0;
    while i < n
        invariant
            i <= n,
            n == map.cards@.len(),
            list@.map_values(|card: &NftCard| *card) == filtered_cards(
                map.cards@.take(i as int),
                category,
                colors,
            ),
        decreases n - i,
    {
        let card = &map.cards[i];
        proof {
            lemma_filter_next(map.cards@, |card: NftCard| card.passes(category, colors), i as int);
        }
        if card.passes_filters(&category, &colors) {
            list.push(card);
            assert(list@.map_values(|card: &NftCard| *card) =~= filtered_cards(
                map.cards@.take(i as int),
                category,
                colors,
            ).push(*card));
        }
        i += 1;
    }
    assert(map.cards@.take(n as int) =~= map.cards@);
    Some(list)
}

/// The cards that pass the two filters, in the order of the catalog.
pub open spec fn filtered_ids(
    cards: Seq<NftCard>,
    category: Option<CategorySet>,
    colors: Option<ColorSet>,
) -> Seq<NftCardId> {
    filtered_cards(cards, category, colors).map_values(|card: NftCard| card.id)
}

/// Why no cards could be listed.
#[derive(Debug, Clone, Copy, PartialEq, Eq, Structural)]
pub enum CatalogError {
    /// The catalog has not been filled.
    NotReady,
}

/// Gives the cards that pass the two filters, in the order of the catalog;
/// the error exactly when the catalog is not filled.
pub fn filter_cards_id_only(
    map: &NftCardMap,
    category: Option<CategorySet>,
    colors: Option<ColorSet>,
) -> (found: Result<Vec<NftCardId>, CatalogError>)
    ensures
        found is Ok <==> map.ready(),
        found matches Ok(ids) ==> ids@ == filtered_ids(map.cards(), category, colors),
{
    match filter_cards(map, category, colors) {
        Some(cards) => {
            let mut ids: Vec<NftCardId> = Vec::new();
            let mut i: usize = 0;
            let ghost records = cards@.map_values(|card: &NftCard| *card);
            while i < cards.len()
                invariant
                    i <= cards@.len(),
                    records == cards@.map_values(|card: &NftCard| *card),
                    ids@ == records.take(i as int).map_values(|card: NftCard| card.id),
                decreases cards@.len() - i,
            {
                ids.push(cards[i].id);
                assert(ids@ =~= records.take(i as int + 1).map_values(|card: NftCard| card.id));
                i += 1;
            }
            assert(records.take(cards@.len() as int) =~= records);
            Ok(ids)
        },
        None => Err(CatalogError::NotReady),
    }
}

} // verus!
