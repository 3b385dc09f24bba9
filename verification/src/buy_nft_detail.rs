//! What the marketplace tells of one offer before it is bought.

use vstd::prelude::*;
use vstd::string::*;

verus! {

/// One trait of the offered item.
#[derive(Debug)]
pub struct MetaData {
    pub value: String,
    pub display_color: String,
    pub if_display_bold: bool,
    pub trait_type: String,
}

/// The offer itself.
#[derive(Debug)]
pub struct BaseInfo {
    pub amount: u32,
    /// The name of the seller.
    pub owner: String,
    pub end_time: u64,
    pub owner_profile_image_url: Option<String>,
    pub nft_name: String,
    pub image: String,
    /// The price asked, as decimal text.
    pub sale_price: String,
    /// The currency of the price.
    pub price_unity: String,
    pub token_id: String,
    pub priority_level_trait: Option<String>,
    pub desc: Option<String>,
}

/// What is asked of the marketplace to learn of one offer.
#[derive(Debug)]
pub struct BuyNftDetailQuery {
    /// The token of the offer.
    pub sale_aggregator_number: String,
}

/// The question about the offer with the token `sale_aggregator_number`.
pub fn buy_nft_detail_query(sale_aggregator_number: String) -> (query: BuyNftDetailQuery)
    ensures
        query.sale_aggregator_number == sale_aggregator_number,
{
    BuyNftDetailQuery { sale_aggregator_number }
}

} // verus!
