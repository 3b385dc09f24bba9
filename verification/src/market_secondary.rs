//! The secondary market: one summary row per item, with its floor price.

use crate::filter::Discrete;
use crate::nft::{NftId, NftSortType};
use vstd::prelude::*;
use vstd::string::*;

verus! {

/// One item's summary on the secondary market.
#[derive(Debug)]
pub struct Secondary {
    /// How many were sold.
    pub volume: u32,
    /// How many are on sale now.
    pub quantity: u32,
    /// The item's number in the catalog.
    pub secondary_id: u32,
    /// The item's name.
    pub secondary_name: String,
    /// The family the item belongs to.
    pub nft_name: String,
    pub image: String,
    /// The number of that family.
    pub chain_nft_id: u32,
    /// The lowest price now asked, as decimal text.
    pub floor_price: String,
    /// The currency of the price.
    pub price_unity: String,
}

impl Clone for Secondary {
    fn clone(&self) -> (copy: Self)
        ensures
            copy == *self,
    {
        Secondary {
            volume: self.volume,
            quantity: self.quantity,
            secondary_id: self.secondary_id,
            secondary_name: self.secondary_name.clone(),
            nft_name: self.nft_name.clone(),
            image: self.image.clone(),
            chain_nft_id: self.chain_nft_id,
            floor_price: self.floor_price.clone(),
            price_unity: self.price_unity.clone(),
        }
    }
}

/// One page of summary rows.
#[derive(Debug)]
pub struct MarketSecondaryResponse {
    /// How many rows the whole answer has, over all pages.
    pub total: u32,
    pub list: Vec<Secondary>,
}

/// What is asked of the marketplace to get one page of summary rows.
#[derive(Debug)]
pub struct MarketSecondaryQuery {
    pub chain_nft_id: u32,
    pub discrete_list: Vec<Discrete>,
    pub page_number: u32,
    pub page_size: u32,
    pub sort_type: u32,
}

/// The question for page `page` of the summary rows of family `nft_id`,
/// `page_size` rows to a page, in the order `sort_type`, narrowed by
/// `discrete_list`.
pub fn market_secondary_query(
    nft_id: NftId,
    page: u32,
    page_size: u32,
    sort_type: NftSortType,
    discrete_list: Vec<Discrete>,
) -> (query: MarketSecondaryQuery)
    ensures
        query.chain_nft_id == nft_id.wire_code(),
        query.discrete_list == discrete_list,
        query.page_number == page,
        query.page_size == page_size,
        query.sort_type == sort_type.wire_code(),
{
    MarketSecondaryQuery {
        chain_nft_id: nft_id.to_wire_code(),
        discrete_list,
        page_number: page,
        page_size,
        sort_type: sort_type.to_wire_code(),
    }
}

} // verus!
