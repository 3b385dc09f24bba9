//! What is said to the marketplace and what it answers: the envelope of every
//! answer, the errors a call can end in, and when a call is tried again.

use crate::text::{starts_with, str_eq};
use crate::utils::timestamp;
use vstd::prelude::*;
use vstd::string::*;

verus! {

/// How a call to the marketplace can fail.
#[derive(Debug)]
pub enum ApiError {
    /// The request did not get through, or no answer could be read.
    Transport { message: String },
    /// Every attempt was answered with a failure status or an error page.
    RetriesExhausted,
    /// The answer is not in the form the marketplace promises.
    Unreadable { message: String },
    /// The marketplace answered that the call did not succeed: the session
    /// has expired, or the offer has been sold already.
    Rejected { code: String, message: String },
    /// The marketplace reported success and sent nothing.
    NoData,
    /// The request could not be sealed.
    Sealing { message: String },
}

/// The envelope of every answer.
#[derive(Debug)]
pub struct ResponseWrapper<T> {
    pub msg: String,
    pub data: Option<T>,
    pub code: String,
}

/// The code with which the marketplace reports success.
pub open spec fn success_code() -> Seq<char> {
    "000000"@
}

/// Opens the envelope of an answer: what it holds, if the marketplace
/// reported success and sent something.
pub fn open_envelope<T>(wrapper: ResponseWrapper<T>) -> (opened: Result<T, ApiError>)
    ensures
        match opened {
            Ok(data) => wrapper.code@ == success_code() && wrapper.data == Some(data),
            Err(ApiError::Rejected { code, message }) => wrapper.code@ != success_code() && code
                == wrapper.code && message == wrapper.msg,
            Err(ApiError::NoData) => wrapper.code@ == success_code() && wrapper.data is None,
            Err(_) => false,
        },
{
    if !str_eq(wrapper.code.as_str(), "000000") {
        return Err(ApiError::Rejected { code: wrapper.code, message: wrapper.msg });
    }
    match wrapper.data {
        Some(data) => Ok(data),
        None => Err(ApiError::NoData),
    }
}

/// How many times a request is sent again after the first attempt.
pub const POST_MAX_RETRY: u32 = 4;

/// How long to wait before a request is sent again, in seconds.
pub const RETRY_DELAY_SECONDS: u64 = 1;

/// The status with which the marketplace answers a request it has served.
pub const STATUS_OK: u16 = 200;

/// What to do with an answer.
#[derive(Debug, Clone, Copy, PartialEq, Eq, Structural)]
pub enum PostStep {
    /// Read the body: it is the envelope.
    Read,
    /// Wait for `delay_seconds`, then send the request again, as attempt
    /// `attempt`.
    Retry { delay_seconds: u64, attempt: u32 },
    /// Send nothing more: the call has failed.
    GiveUp,
}

/// Whether an answer is a failure of the service, not of the call: another
/// status than 200, or an error page in place of the envelope.
pub open spec fn is_service_failure(status: u16, body: Seq<char>) -> bool {
    status != STATUS_OK || is_prefix("<html>"@, body)
}

/// Whether `text` begins with `prefix`.
pub open spec fn is_prefix(prefix: Seq<char>, text: Seq<char>) -> bool {
    prefix.len() <= text.len() && text.take(prefix.len() as int) == prefix
}

/// What to do with the answer to attempt `attempt`, the first attempt being
/// attempt zero.
pub open spec fn post_step(attempt: u32, status: u16, body: Seq<char>) -> PostStep {
    if !is_service_failure(status, body) {
        PostStep::Read
    } else if attempt < POST_MAX_RETRY {
        PostStep::Retry { delay_seconds: RETRY_DELAY_SECONDS, attempt: (attempt + 1) as u32 }
    } else {
        PostStep::GiveUp
    }
}

/// Decides what to do with the answer to attempt `attempt`: read it, or, where
/// the service has failed, send the request again after a second, five
/// attempts in all.
pub fn after_response(attempt: u32, status: u16, body: &str) -> (step: PostStep)
    ensures
        step == post_step(attempt, status, body@),
{
    if status == STATUS_OK && !starts_with(body, "<html>") {
        PostStep::Read
    } else if attempt < POST_MAX_RETRY {
        PostStep::Retry { delay_seconds: RETRY_DELAY_SECONDS, attempt: attempt + 1 }
    } else {
        PostStep::GiveUp
    }
}

/// No call makes more than five attempts: an attempt that is made has a
/// number of at most four, and after the attempt with number four nothing is
/// sent again.
pub proof fn lemma_attempts_are_bounded(attempt: u32, status: u16, body: Seq<char>)
    ensures
        post_step(attempt, status, body) matches PostStep::Retry { attempt: next, .. } ==> next
            == attempt + 1 && next <= POST_MAX_RETRY,
        attempt >= POST_MAX_RETRY ==> !(post_step(attempt, status, body) is Retry),
{
}

/// The places at the marketplace that requests go to.
#[derive(Debug, Clone, Copy, PartialEq, Eq, Structural)]
pub enum Endpoint {
    CategoryList,
    MarketHome,
    MarketSecondary,
    PaymentTypeDetail,
    SaleNftPriceRange,
    GroundNftAsset,
    BuyNftAsset,
    AnalyzeList,
    AnalyzeSellHistory,
    AnalyzeFloorPriceTrend,
    AnalyzeDealTrend,
    BuyNftDetail,
    GameConfig,
    UserBalance,
}

impl Endpoint {
    /// The address of this place.
    pub open spec fn address(self) -> Seq<char> {
        match self {
            Endpoint::CategoryList => "https://game.metalist.io/api/marketQuery/queryCategoryList"@,
            Endpoint::MarketHome => "https://game.metalist.io/api/marketQuery/queryMarketHome"@,
            Endpoint::MarketSecondary => "https://game.metalist.io/api/marketQuery/queryMarketSecondary"@,
            Endpoint::PaymentTypeDetail => "https://game.metalist.io/api/marketQuery/queryPaymentTypeDetail"@,
            Endpoint::SaleNftPriceRange => "https://game.metalist.io/api/marketQuery/querySaleNftPriceRange"@,
            Endpoint::GroundNftAsset => "https://game.metalist.io/api/marketOperate/groundNFTAsset"@,
            Endpoint::BuyNftAsset => "https://game.metalist.io/api/marketOperate/buyNFTAsset"@,
            Endpoint::AnalyzeList => "https://game.metalist.io/api/marketQuery/queryAnalyzeList"@,
            Endpoint::AnalyzeSellHistory => "https://game.metalist.io/api/marketQuery/queryAnalyzeSellHistory"@,
            Endpoint::AnalyzeFloorPriceTrend => "https://game.metalist.io/api/marketQuery/queryAnalyzeFloorPriceTrend"@,
            Endpoint::AnalyzeDealTrend => "https://game.metalist.io/api/marketQuery/queryAnalyzeDealTrend"@,
            Endpoint::BuyNftDetail => "https://game.metalist.io/api/marketQuery/queryBuyNftDetail"@,
            Endpoint::GameConfig => "https://game.metalist.io/api/marketQuery/queryGameConfig"@,
            Endpoint::UserBalance => "https://game.metalist.io/api/marketQuery/queryUserBalance"@,
        }
    }

    /// Gives the address of this place.
    pub fn url(self) -> (address: &'static str)
        ensures
            address@ == self.address(),
    {
        match self {
            Endpoint::CategoryList => "https://game.metalist.io/api/marketQuery/queryCategoryList",
            Endpoint::MarketHome => "https://game.metalist.io/api/marketQuery/queryMarketHome",
            Endpoint::MarketSecondary => "https://game.metalist.io/api/marketQuery/queryMarketSecondary",
            Endpoint::PaymentTypeDetail => "https://game.metalist.io/api/marketQuery/queryPaymentTypeDetail",
            Endpoint::SaleNftPriceRange => "https://game.metalist.io/api/marketQuery/querySaleNftPriceRange",
            Endpoint::GroundNftAsset => "https://game.metalist.io/api/marketOperate/groundNFTAsset",
            Endpoint::BuyNftAsset => "https://game.metalist.io/api/marketOperate/buyNFTAsset",
            Endpoint::AnalyzeList => "https://game.metalist.io/api/marketQuery/queryAnalyzeList",
            Endpoint::AnalyzeSellHistory => "https://game.metalist.io/api/marketQuery/queryAnalyzeSellHistory",
            Endpoint::AnalyzeFloorPriceTrend => "https://game.metalist.io/api/marketQuery/queryAnalyzeFloorPriceTrend",
            Endpoint::AnalyzeDealTrend => "https://game.metalist.io/api/marketQuery/queryAnalyzeDealTrend",
            Endpoint::BuyNftDetail => "https://game.metalist.io/api/marketQuery/queryBuyNftDetail",
            Endpoint::GameConfig => "https://game.metalist.io/api/marketQuery/queryGameConfig",
            Endpoint::UserBalance => "https://game.metalist.io/api/marketQuery/queryUserBalance",
        }
    }
}

/// What is sent, sealed, to buy an offer.
#[derive(Debug)]
pub struct BuyNftParams {
    /// A value that is used for this request alone.
    pub nonce: String,
    pub amount: u32,
    pub password: String,
    pub payment_type: String,
    /// When the request was made, in milliseconds.
    pub req_timestamp: i64,
    /// The token of the offer.
    pub sale_aggregator_number: String,
}

impl BuyNftParams {
    /// The request to buy the offer with the token `sale_aggregator_number`:
    /// one card, paid from the wallet, without a password.
    pub fn new(nonce: String, req_timestamp: i64, sale_aggregator_number: &str) -> (params:
        BuyNftParams)
        ensures
            params.nonce == nonce,
            params.amount == 1,
            params.password@ == Seq::<char>::empty(),
            params.payment_type@ == "Wallet"@,
            params.req_timestamp == req_timestamp,
            params.sale_aggregator_number@ == sale_aggregator_number@,
    {
        BuyNftParams {
            nonce,
            amount: 1,
            password: String::new(),
            payment_type: "Wallet".to_string(),
            req_timestamp,
            sale_aggregator_number: sale_aggregator_number.to_string(),
        }
    }
}

/// Draws a value for one request with `uuid::Uuid::new_v4` and writes it
/// out as `Uuid` displays it. Which value comes is chance; it is written as
/// thirty-two lower-case hexadecimal digits in groups of eight, four, four,
/// four and twelve, with hyphens between the groups.
#[verifier::external_body]
pub(crate) fn fresh_nonce() -> (nonce: String)
    ensures
        is_hyphenated(nonce@),
{
    uuid::Uuid::new_v4().to_string()
}

/// Whether `c` is a lower-case hexadecimal digit.
pub open spec fn is_lower_hex(c: char) -> bool {
    ('0' <= c && c <= '9') || ('a' <= c && c <= 'f')
}

/// Whether `text` is thirty-two lower-case hexadecimal digits in groups of
/// eight, four, four, four and twelve, with hyphens between the groups.
pub open spec fn is_hyphenated(text: Seq<char>) -> bool {
    &&& text.len() == 36
    &&& forall|i: int|
        0 <= i < 36 ==> if i == 8 || i == 13 || i == 18 || i == 23 {
            #[trigger] text[i] == '-'
        } else {
            is_lower_hex(text[i])
        }
}

/// Makes the request to buy the offer with the token
/// `sale_aggregator_number`, now: with a fresh nonce and the time of the
/// clock.
pub fn buy_request(sale_aggregator_number: &str) -> (params: BuyNftParams)
    ensures
        is_hyphenated(params.nonce@),
        params.amount == 1,
        params.password@ == Seq::<char>::empty(),
        params.payment_type@ == "Wallet"@,
        params.sale_aggregator_number@ == sale_aggregator_number@,
{
    BuyNftParams::new(fresh_nonce(), timestamp(), sale_aggregator_number)
}

/// What is sent, sealed, to sign in with a password.
#[derive(Debug)]
pub struct PwdLoginParams {
    pub password: String,
    pub user_number: String,
}

/// A sealed request: the key, wrapped for the marketplace, and the request
/// under that key, both as base64 text.
#[derive(Debug)]
pub struct SealedPayload {
    pub enc_content: String,
    pub enc_key: String,
}

} // verus!
