//! How a purchase can be paid.

use vstd::prelude::*;
use vstd::string::*;

verus! {

/// The currency that is traded in: the first of the marketplace.
pub const COIN_ID: u32 = 1;

/// One way to pay.
#[derive(Debug)]
pub struct PaymentTypeDetail {
    pub type_: u32,
    pub name: String,
    pub market_url: Option<String>,
}

/// The unit in which amounts are given.
#[derive(Debug)]
pub struct PaymentInfo {
    pub unit: String,
}

/// What is asked of the marketplace to learn the ways to pay in one
/// currency.
#[derive(Debug, Clone, Copy, PartialEq, Eq, Structural)]
pub struct PaymentTypeQuery {
    pub coin_id: u32,
}

/// The question for the ways to pay in the currency that is traded in.
pub fn payment_type_query() -> (query: PaymentTypeQuery)
    ensures
        query.coin_id == COIN_ID,
{
    PaymentTypeQuery { coin_id: COIN_ID }
}

} // verus!
