//! The families of items the marketplace trades, and its currencies.

use vstd::prelude::*;
use vstd::string::*;

verus! {

/// What the marketplace answers when asked for its families of items.
#[derive(Debug)]
pub struct CategoryListResponse {
    pub category_list: Vec<Category>,
    pub coin_type_list: Vec<CoinType>,
}

/// One family of items.
#[derive(Debug)]
pub struct Category {
    pub nft_type: u32,
    pub if_support_batch_buy: bool,
    pub category_id: u32,
    pub analyzed: bool,
    pub sort_type_list: Vec<CategorySortType>,
    pub category_type: u32,
    pub category_name: String,
}

/// One order in which the items of a family can be listed.
#[derive(Debug)]
pub struct CategorySortType {
    pub sort_type_id: u32,
    pub order_type: u32,
    pub sort_name: String,
}

/// One currency.
#[derive(Debug)]
pub struct CoinType {
    pub coin_id: u32,
    pub coin_type_name: String,
}

} // verus!
