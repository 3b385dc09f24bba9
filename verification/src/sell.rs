//! Putting a card up for sale.

use crate::api::{fresh_nonce, is_hyphenated};
use crate::nft::NftId;
use crate::payment::COIN_ID;
use crate::utils::timestamp;
use vstd::prelude::*;
use vstd::string::*;

verus! {

/// The prices at which cards like one's own are offered and were sold.
#[derive(Debug)]
pub struct SaleNftPriceRange {
    pub lowest_price: String,
    pub last_sale_price: Option<String>,
    pub exp_attribute: bool,
}

/// What is sent, sealed, to put a card up for sale.
#[derive(Debug)]
pub struct SellNftParams {
    /// A value that is used for this request alone.
    pub nonce: String,
    pub amount: u32,
    pub password: String,
    /// The price asked, as decimal text.
    pub price: String,
    /// When the request was made, in milliseconds.
    pub req_timestamp: i64,
    pub token_id: String,
    pub coin_id: u32,
    pub chain_nft_id: u32,
}

impl SellNftParams {
    /// The request to put the card `token_id` up for sale at `price`: one
    /// card, in the currency that is traded in, without a password.
    pub fn new(nonce: String, req_timestamp: i64, price: String, token_id: String) -> (params:
        SellNftParams)
        ensures
            params.nonce == nonce,
            params.amount == 1,
            params.password@ == Seq::<char>::empty(),
            params.price == price,
            params.req_timestamp == req_timestamp,
            params.token_id == token_id,
            params.coin_id == COIN_ID,
            params.chain_nft_id == NftId::Cards.wire_code(),
    {
        SellNftParams {
            nonce,
            amount: 1,
            password: String::new(),
            price,
            req_timestamp,
            token_id,
            coin_id: COIN_ID,
            chain_nft_id: NftId::Cards.to_wire_code(),
        }
    }
}

/// Makes the request to put the card `token_id` up for sale at `price`, now:
/// with a fresh nonce and the time of the clock.
pub fn sell_request(price: String, token_id: String) -> (params: SellNftParams)
    ensures
        is_hyphenated(params.nonce@),
        params.amount == 1,
        params.password@ == Seq::<char>::empty(),
        params.price == price,
        params.token_id == token_id,
        params.coin_id == COIN_ID,
        params.chain_nft_id == NftId::Cards.wire_code(),
{
    SellNftParams::new(fresh_nonce(), timestamp(), price, token_id)
}

/// What is asked of the marketplace to learn the prices of cards like one's
/// own.
#[derive(Debug)]
pub struct SaleNftPriceRangeQuery {
    pub chain_nft_id: u32,
    pub coin_id: u32,
    pub token_ids: Vec<String>,
}

/// The question for the prices of cards like `token_ids`, of the family
/// `nft_id`.
pub fn sell_nft_detail_query(nft_id: NftId, token_ids: Vec<String>) -> (query:
    SaleNftPriceRangeQuery)
    ensures
        query.chain_nft_id == nft_id.wire_code(),
        query.coin_id == COIN_ID,
        query.token_ids == token_ids,
{
    SaleNftPriceRangeQuery { chain_nft_id: nft_id.to_wire_code(), coin_id: COIN_ID, token_ids }
}

} // verus!
