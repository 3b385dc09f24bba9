//! The buy decision: what to do about one item, once its offers are known.
//!
//! The offers of an item come cheapest first. Only the first is looked at:
//! its price per unit of experience is worked out afresh and held against the
//! highest acceptable price, which in a scan is the reference price of the
//! card, because the summary that made the item a candidate may be stale by
//! now. One purchase is attempted at most, and it is never attempted again
//! here: whatever the marketplace answers ends the matter for this item.

use crate::api::ApiError;
use crate::decimal::{
    atto_of, lemma_read_decimal, parse_decimal, read_decimal, Decimal, NumericError,
};
use crate::market_home::{CardInformation, MarketHomeResponse};
use crate::market_secondary::Secondary;
use crate::price::{effective_unit_price, unit_price_of};
use crate::price_table::PriceTable;
use vstd::prelude::*;
use vstd::string::*;

verus! {

/// How the matter of one item ended.
#[derive(Debug)]
pub enum Outcome {
    /// The first offer was bought, at the price `price`.
    Purchased { price: String },
    /// The purchase was attempted and the marketplace did not make it: the
    /// offer may have been sold a moment before.
    PurchaseFailed { error: ApiError },
    /// The first offer is of a card above the highest level that is bought.
    SkippedTooHighLevel { level: u32 },
    /// No offer is cheap enough, or there is none.
    NoQualifyingListing,
    /// The offers could not be fetched.
    FetchFailed { error: ApiError },
    /// The price of the first offer cannot be read.
    UnreadableListing { reason: NumericError },
}

/// What the offers of one item call for.
#[derive(Debug, Clone, Copy, PartialEq, Eq, Structural)]
pub enum Verdict {
    /// Buy the first offer.
    Buy,
    /// Leave the item: its first offer is above the highest level.
    TooHighLevel,
    /// Leave the item: nothing is cheap enough.
    Nothing,
    /// Leave the item: the price of its first offer cannot be read.
    Unreadable(NumericError),
}

/// What the offers `listings` call for, with `max_price` the highest
/// acceptable price per unit of experience and `max_level` the highest level
/// that is bought.
///
/// Without offers there is nothing to buy. Else the first offer decides: above
/// `max_level` it is left; else, if its price cannot be read, it is left;
/// else it is bought exactly if its price is at most `max_price`.
pub open spec fn verdict(listings: Seq<CardInformation>, max_price: Decimal, max_level: u32)
    -> Verdict {
    if listings.len() == 0 {
        Verdict::Nothing
    } else if listings[0].accumulate_trait.value > max_level {
        Verdict::TooHighLevel
    } else {
        match unit_price_of(listings[0]) {
            Err(e) => Verdict::Unreadable(e),
            Ok((numerator, divisor)) => if numerator <= max_price.atto() * divisor {
                Verdict::Buy
            } else {
                Verdict::Nothing
            },
        }
    }
}

/// What to do next about one item.
#[derive(Debug)]
pub enum Evaluation {
    /// Attempt to buy the offer with the token `listing_handle`, once. Its
    /// price is `price`.
    Attempt { listing_handle: String, price: String },
    /// Nothing more is to be done: the matter has ended.
    Done(Outcome),
}

/// The rule by which offers are judged.
#[derive(Debug, Clone, Copy)]
pub struct BuyDecisionEngine {
    /// The highest level that is bought.
    pub max_level: u32,
}

/// The highest level that is bought where nothing else is said.
pub const DEFAULT_MAX_LEVEL: u32 = 3;

impl BuyDecisionEngine {
    /// The rule with the highest level `max_level`.
    pub fn new(max_level: u32) -> (engine: BuyDecisionEngine)
        ensures
            engine.max_level == max_level,
    {
        BuyDecisionEngine { max_level }
    }

    /// Whether `evaluation` is what `self` makes of `fetched`.
    pub open spec fn evaluates(
        self,
        fetched: Result<MarketHomeResponse, ApiError>,
        max_price: Decimal,
        evaluation: Evaluation,
    ) -> bool {
        match fetched {
            Err(error) => evaluation == Evaluation::Done(Outcome::FetchFailed { error }),
            Ok(response) => match verdict(response.list@, max_price, self.max_level) {
                Verdict::Buy => evaluation matches Evaluation::Attempt { listing_handle, price }
                    && listing_handle@ == response.list@[0].sale_aggregator_number@ && price@
                    == response.list@[0].sale_price@,
                Verdict::TooHighLevel => evaluation == Evaluation::Done(
                    Outcome::SkippedTooHighLevel { level: response.list@[0].accumulate_trait.value },
                ),
                Verdict::Nothing => evaluation == Evaluation::Done(Outcome::NoQualifyingListing),
                Verdict::Unreadable(reason) => evaluation == Evaluation::Done(
                    Outcome::UnreadableListing { reason },
                ),
            },
        }
    }

    /// Decides what to do about one item, from what fetching its offers gave.
    ///
    /// A fetch that failed ends the matter. Of the offers only the first is
    /// judged, by [`verdict`].
    pub fn evaluate(
        &self,
        fetched: Result<MarketHomeResponse, ApiError>,
        max_price: &Decimal,
    ) -> (evaluation: Evaluation)
        ensures
            self.evaluates(fetched, *max_price, evaluation),
    {
        let response = match fetched {
            Ok(response) => response,
            Err(error) => {
                return Evaluation::Done(Outcome::FetchFailed { error });
            },
        };
        if response.list.len() == 0 {
            return Evaluation::Done(Outcome::NoQualifyingListing);
        }
        let first = &response.list[0];
        let level = first.accumulate_trait.value;
        if level > self.max_level {
            return Evaluation::Done(Outcome::SkippedTooHighLevel { level });
        }
        match effective_unit_price(first) {
            Err(reason) => Evaluation::Done(Outcome::UnreadableListing { reason }),
            Ok(unit_price) => {
                if unit_price.at_most(max_price) {
                    Evaluation::Attempt {
                        listing_handle: first.sale_aggregator_number.clone(),
                        price: first.sale_price.clone(),
                    }
                } else {
                    Evaluation::Done(Outcome::NoQualifyingListing)
                }
            },
        }
    }

    /// Whether `evaluation` is what `self` makes of one candidate of a scan:
    /// a fetch that failed ends the matter; else the offers are judged against
    /// the reference price of the candidate's card, and a card without a
    /// reference price is not bought.
    pub open spec fn evaluates_candidate(
        self,
        candidate: Secondary,
        prices: Map<u32, Decimal>,
        fetched: Result<MarketHomeResponse, ApiError>,
        evaluation: Evaluation,
    ) -> bool {
        match fetched {
            Err(error) => evaluation == Evaluation::Done(Outcome::FetchFailed { error }),
            Ok(_) => if prices.contains_key(candidate.secondary_id) {
                self.evaluates(fetched, prices[candidate.secondary_id], evaluation)
            } else {
                evaluation == Evaluation::Done(Outcome::NoQualifyingListing)
            },
        }
    }

    /// Decides what to do about one candidate of a scan, from what fetching
    /// its offers gave. The highest acceptable price is the reference price of
    /// the candidate's card, the same that made the row a candidate: what the
    /// row said of the floor price has no say in it.
    pub fn evaluate_candidate(
        &self,
        candidate: &Secondary,
        prices: &PriceTable,
        fetched: Result<MarketHomeResponse, ApiError>,
    ) -> (evaluation: Evaluation)
        ensures
            self.evaluates_candidate(*candidate, prices@, fetched, evaluation),
    {
        match prices.get(candidate.secondary_id) {
            Some(reference) => self.evaluate(fetched, &reference),
            None => match fetched {
                Err(error) => Evaluation::Done(Outcome::FetchFailed { error }),
                Ok(_) => Evaluation::Done(Outcome::NoQualifyingListing),
            },
        }
    }

    /// Decides what to do about one row of the market by another rule, for
    /// those who trade without reference prices: the highest acceptable price
    /// is the floor price that the row itself gives, so that the first offer
    /// is bought only if it costs no more than the summary said.
    ///
    /// A floor price that is no amount ends the matter, unless the fetch has
    /// failed, which ends it first.
    pub fn evaluate_at_floor_price(
        &self,
        candidate: &Secondary,
        fetched: Result<MarketHomeResponse, ApiError>,
    ) -> (evaluation: Evaluation)
        ensures
            match read_decimal(candidate.floor_price@) {
                Ok(max_price) => self.evaluates(fetched, max_price, evaluation),
                Err(reason) => match fetched {
                    Err(error) => evaluation == Evaluation::Done(Outcome::FetchFailed { error }),
                    Ok(_) => evaluation == Evaluation::Done(Outcome::UnreadableListing { reason }),
                },
            },
    {
        match Decimal::parse(candidate.floor_price.as_str()) {
            Ok(max_price) => self.evaluate(fetched, &max_price),
            Err(reason) => match fetched {
                Err(error) => Evaluation::Done(Outcome::FetchFailed { error }),
                Ok(_) => Evaluation::Done(Outcome::UnreadableListing { reason }),
            },
        }
    }

    /// Ends the matter of one item after the purchase was attempted: bought
    /// at `price` if the marketplace confirmed, failed with its error if not.
    /// A failed purchase is an outcome like any other.
    pub fn conclude(&self, price: String, bought: Result<String, ApiError>) -> (outcome: Outcome)
        ensures
            match bought {
                Ok(_) => outcome == (Outcome::Purchased { price }),
                Err(error) => outcome == (Outcome::PurchaseFailed { error }),
            },
    {
        match bought {
            Ok(_) => Outcome::Purchased { price },
            Err(error) => Outcome::PurchaseFailed { error },
        }
    }
}

/// Without offers nothing is bought, whatever the prices.
pub proof fn lemma_no_offers_no_purchase(max_price: Decimal, max_level: u32)
    ensures
        verdict(Seq::<CardInformation>::empty(), max_price, max_level) == Verdict::Nothing,
{
}

/// The threshold is inclusive: a first offer within the level, whose price
/// per unit of experience equals the highest acceptable price, is bought.
pub proof fn lemma_price_at_threshold_is_bought(
    listings: Seq<CardInformation>,
    max_price: Decimal,
    max_level: u32,
)
    requires
        listings.len() > 0,
        listings[0].accumulate_trait.value <= max_level,
        unit_price_of(listings[0]) matches Ok((numerator, divisor)) && numerator == max_price.atto()
            * divisor,
    ensures
        verdict(listings, max_price, max_level) == Verdict::Buy,
{
}

/// The second look keeps the first look's threshold, the reference price: a
/// candidate whose first offer is within the level and costs, per unit of
/// experience, exactly the reference price of its card, is bought, whatever
/// floor price the row gave.
pub proof fn lemma_candidate_at_reference_price_is_bought(
    engine: BuyDecisionEngine,
    candidate: Secondary,
    prices: Map<u32, Decimal>,
    response: MarketHomeResponse,
    evaluation: Evaluation,
)
    requires
        prices.contains_key(candidate.secondary_id),
        response.list@.len() > 0,
        response.list@[0].accumulate_trait.value <= engine.max_level,
        unit_price_of(response.list@[0]) matches Ok((numerator, divisor)) && numerator
            == prices[candidate.secondary_id].atto() * divisor,
        engine.evaluates_candidate(
            candidate,
            prices,
            Ok::<MarketHomeResponse, ApiError>(response),
            evaluation,
        ),
    ensures
        evaluation matches Evaluation::Attempt { listing_handle, price } && listing_handle@
            == response.list@[0].sale_aggregator_number@ && price@ == response.list@[0].sale_price@,
{
    lemma_price_at_threshold_is_bought(
        response.list@,
        prices[candidate.secondary_id],
        engine.max_level,
    );
}

/// A candidate without offers is not bought, and nothing fails: the outcome
/// is that no offer qualifies.
pub proof fn lemma_candidate_without_offers_is_left(
    engine: BuyDecisionEngine,
    candidate: Secondary,
    prices: Map<u32, Decimal>,
    response: MarketHomeResponse,
    evaluation: Evaluation,
)
    requires
        response.list@.len() == 0,
        engine.evaluates_candidate(
            candidate,
            prices,
            Ok::<MarketHomeResponse, ApiError>(response),
            evaluation,
        ),
    ensures
        evaluation == Evaluation::Done(Outcome::NoQualifyingListing),
{
}

/// Under the rule of the floor price the threshold is inclusive too: a first
/// offer within the level that costs, per unit of experience, exactly the
/// floor price of the row, is bought.
pub proof fn lemma_offer_at_floor_price_is_bought(
    candidate: Secondary,
    listings: Seq<CardInformation>,
    max_level: u32,
)
    requires
        parse_decimal(candidate.floor_price@) is Ok,
        listings.len() > 0,
        listings[0].accumulate_trait.value <= max_level,
        unit_price_of(listings[0]) matches Ok((numerator, divisor)) && numerator == atto_of(
            parse_decimal(candidate.floor_price@)->Ok_0.0,
            parse_decimal(candidate.floor_price@)->Ok_0.1,
        ) * divisor,
    ensures
        read_decimal(candidate.floor_price@) matches Ok(max_price) && verdict(
            listings,
            max_price,
            max_level,
        ) == Verdict::Buy,
{
    lemma_read_decimal(candidate.floor_price@);
}

/// Only the first offer counts: the verdict on a list of offers is the
/// verdict on its first offer alone.
pub proof fn lemma_only_first_offer_counts(
    listings: Seq<CardInformation>,
    max_price: Decimal,
    max_level: u32,
)
    requires
        listings.len() > 0,
    ensures
        verdict(listings, max_price, max_level) == verdict(
            seq![listings[0]],
            max_price,
            max_level,
        ),
{
}

} // verus!
