//! The market's front page for one item: the single offers, cheapest first.

use crate::filter::Continuity;
use crate::nft::NftId;
use vstd::prelude::*;
use vstd::string::*;

verus! {

/// The attribute of an offered card that grows with use: its name and how
/// much of it the card has gathered.
#[derive(Debug)]
pub struct AccumulateTrait {
    pub name: String,
    pub value: u32,
}

/// One named figure that the marketplace attaches to an offer.
#[derive(Debug)]
pub struct MetadataList {
    pub name: String,
    pub value: String,
    pub if_accumulate: Option<bool>,
}

/// One offer: a single card for sale.
#[derive(Debug)]
pub struct CardInformation {
    /// The number of the family the card belongs to.
    pub chain_nft_id: u32,
    pub amount: u32,
    /// The currency of the price.
    pub price_unity: String,
    /// The card's level, as text.
    pub priority_trait1: String,
    /// The card's experience.
    pub accumulate_trait: AccumulateTrait,
    pub nft_type: u32,
    pub image: String,
    /// The price asked for the whole card, as decimal text.
    pub sale_price: String,
    pub token_id: String,
    pub nft_name: String,
    pub priority_trait_2: String,
    /// The token that buys this offer. It can be used once.
    pub sale_aggregator_number: String,
    /// Further figures, among them the price per unit of experience where the
    /// marketplace gives it.
    pub metadata_list: Vec<MetadataList>,
}

/// One page of offers.
#[derive(Debug)]
pub struct MarketHomeResponse {
    pub list: Vec<CardInformation>,
}

/// The orders in which the marketplace can list offers.
#[derive(Debug, Clone, Copy, PartialEq, Eq, Structural)]
pub enum MarketHomeSortType {
    PriceExpAscending,
    PriceExpDescending,
    PriceAscending,
    PriceDescending,
    Latest,
    HonorPointsAscending,
}

impl MarketHomeSortType {
    /// The number the marketplace uses for this order.
    pub open spec fn wire_code(self) -> u32 {
        match self {
            MarketHomeSortType::PriceExpAscending => 4,
            MarketHomeSortType::PriceExpDescending => 5,
            MarketHomeSortType::PriceAscending => 0,
            MarketHomeSortType::PriceDescending => 1,
            MarketHomeSortType::Latest => 3,
            MarketHomeSortType::HonorPointsAscending => 6,
        }
    }

    /// Gives the number the marketplace uses for this order.
    pub fn to_wire_code(self) -> (code: u32)
        ensures
            code == self.wire_code(),
    {
        match self {
            MarketHomeSortType::PriceExpAscending => 4,
            MarketHomeSortType::PriceExpDescending => 5,
            MarketHomeSortType::PriceAscending => 0,
            MarketHomeSortType::PriceDescending => 1,
            MarketHomeSortType::Latest => 3,
            MarketHomeSortType::HonorPointsAscending => 6,
        }
    }
}

/// How many offers the marketplace puts on one page of an item's offers.
pub const MARKET_HOME_PAGE_SIZE: u32 = 20;

/// What is asked of the marketplace to get one page of an item's offers.
#[derive(Debug)]
pub struct MarketHomeQuery {
    pub coin_id: u32,
    pub continuity_list: Vec<Continuity>,
    pub page_number: u32,
    pub page_size: u32,
    pub first_category_id: u32,
    pub second_category_id: u32,
    pub sort_type: u32,
}

/// The question for page `page` of the offers of item `nft_card_id` in family
/// `nft_id`, in the order `sort_type`: in the first currency, at every level,
/// twenty offers to a page.
pub fn market_home_query(
    nft_id: NftId,
    nft_card_id: u32,
    page: u32,
    sort_type: MarketHomeSortType,
) -> (query: MarketHomeQuery)
    ensures
        query.coin_id == 1,
        query.continuity_list@.len() == 1,
        query.continuity_list@[0].is_level(),
        query.page_number == page,
        query.page_size == MARKET_HOME_PAGE_SIZE,
        query.first_category_id == nft_id.wire_code(),
        query.second_category_id == nft_card_id,
        query.sort_type == sort_type.wire_code(),
{
    let mut continuity_list = Vec::new();
    continuity_list.push(Continuity::level());
    MarketHomeQuery {
        coin_id: 1,
        continuity_list,
        page_number: page,
        page_size: MARKET_HOME_PAGE_SIZE,
        first_category_id: nft_id.to_wire_code(),
        second_category_id: nft_card_id,
        sort_type: sort_type.to_wire_code(),
    }
}

} // verus!
