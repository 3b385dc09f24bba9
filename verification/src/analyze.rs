//! The marketplace's figures on past trade.

use crate::nft::NftId;
use crate::payment::PaymentInfo;
use vstd::prelude::*;
use vstd::string::*;

verus! {

/// The items the marketplace has figures on.
#[derive(Debug)]
pub struct AnalyzeNftResponse {
    pub analyze_nft_list: Vec<AnalyzeNft>,
}

/// One item the marketplace has figures on.
#[derive(Debug)]
pub struct AnalyzeNft {
    pub nft_name: String,
    pub nft_type: u32,
    pub chain_nft_id: u32,
    pub category_type: u32,
}

/// How the floor price went.
#[derive(Debug)]
pub struct AnalyzeFloorPriceTrendResponse {
    pub nodes: Vec<FloorPrice>,
    pub payment_info: PaymentInfo,
}

/// The floor price at one moment.
#[derive(Debug)]
pub struct FloorPrice {
    pub value: String,
    pub timestamp: u64,
}

/// How trade went.
#[derive(Debug)]
pub struct AnalyzeDealTrendResponse {
    pub nodes: Vec<AnalyzeDealTrendNode>,
    pub payment_info: PaymentInfo,
}

/// The trade of one day.
#[derive(Debug)]
pub struct AnalyzeDealTrendNode {
    pub max_value: String,
    pub total_value: String,
    /// The day, as milliseconds since the start of 1970.
    pub timestamp: u64,
    pub avg_value: String,
    pub count: u32,
    pub min_value: String,
}

/// What is asked of the marketplace to get figures on a family of items.
#[derive(Debug)]
pub struct AnalyzeQuery {
    pub chain_nft_id: u32,
    pub category_id: String,
    /// How far back the figures go; `None` where the question has no range.
    pub time_range: Option<String>,
}

/// The range of time that trends are asked for.
pub open spec fn trend_range() -> Seq<char> {
    "7d"@
}

/// The question for the sales of the family `nft_id`, in every category.
pub fn analyze_sell_history_query(nft_id: NftId) -> (query: AnalyzeQuery)
    ensures
        query.chain_nft_id == nft_id.wire_code(),
        query.category_id@ == Seq::<char>::empty(),
        query.time_range is None,
{
    AnalyzeQuery {
        chain_nft_id: nft_id.to_wire_code(),
        category_id: String::new(),
        time_range: None,
    }
}

/// The question for a trend of the family `nft_id`, in every category, over
/// the last seven days.
pub fn analyze_trend_query(nft_id: NftId) -> (query: AnalyzeQuery)
    ensures
        query.chain_nft_id == nft_id.wire_code(),
        query.category_id@ == Seq::<char>::empty(),
        query.time_range matches Some(range) && range@ == trend_range(),
{
    AnalyzeQuery {
        chain_nft_id: nft_id.to_wire_code(),
        category_id: String::new(),
        time_range: Some("7d".to_string()),
    }
}

} // verus!
