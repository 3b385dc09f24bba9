//! Two further rules for buying, both held against the average price of an
//! item's cheapest offers:
//!
//! - buy the first offer of an item if it costs at most half the average;
//! - buy a gold card if it costs less than eleven tenths of what the plain
//!   card costs on average.
//!
//! The average is that of the first five offers, and it is always taken over
//! five, also where fewer offers are there. Prices are fractions and are
//! added and compared exactly. Where a sum does not fit in 128 bits the rule
//! gives no answer and says so.

use crate::card_id::NftCardId;
use crate::decimal::{atto_of, lemma_pow10_18, parse_decimal, NumericError};
use crate::market_home::{CardInformation, MarketHomeResponse};
use crate::price::{
    effective_unit_price, explicit_unit_price, field_index, unit_price_field, unit_price_of,
    UnitPrice,
};
use vstd::prelude::*;
use vstd::string::*;

verus! {

/// How many offers the average is taken over.
pub const CARD_TOP_N: usize = 5;

/// How many offers of the gold card are looked at.
pub const CARD_GOLD_TOP_N: usize = 3;

/// How many offers of the plain card there must be for its average to count.
pub const CARD_NUMBER_GREATER: usize = 10;

/// The prices of `offers` per unit of experience, or the fault of the first
/// offer whose price cannot be read.
pub open spec fn prices_of(offers: Seq<CardInformation>) -> Result<Seq<(nat, nat)>, NumericError>
    decreases offers.len(),
{
    if offers.len() == 0 {
        Ok(Seq::empty())
    } else {
        match prices_of(offers.drop_last()) {
            Err(e) => Err(e),
            Ok(prices) => match unit_price_of(offers.last()) {
                Err(e) => Err(e),
                Ok(price) => Ok(prices.push(price)),
            },
        }
    }
}

/// The sum of fractions, as one fraction over the product of their divisors.
pub open spec fn sum_of(prices: Seq<(nat, nat)>) -> (nat, nat)
    decreases prices.len(),
{
    if prices.len() == 0 {
        (0, 1)
    } else {
        let (n, d) = sum_of(prices.drop_last());
        let (pn, pd) = prices.last();
        (n * pd + pn * d, d * pd)
    }
}

/// The first offers of `offers`: those the average is taken over.
pub open spec fn top_offers(offers: Seq<CardInformation>) -> Seq<CardInformation> {
    if offers.len() <= CARD_TOP_N {
        offers
    } else {
        offers.take(CARD_TOP_N as int)
    }
}

/// Whether a fraction can be held in 128 bits.
pub open spec fn fits(sum: (nat, nat)) -> bool {
    sum.0 <= u128::MAX && sum.1 <= u128::MAX
}

/// A sum of prices, as one fraction.
#[derive(Debug, Clone, Copy)]
pub struct PriceSum {
    num: u128,
    den: u128,
}

impl PriceSum {
    #[verifier::type_invariant]
    spec fn well_formed(self) -> bool {
        self.den >= 1
    }

    /// The numerator of the sum, in units of `10^-18`.
    pub closed spec fn numerator(self) -> nat {
        self.num as nat
    }

    /// The divisor of the sum: at least one.
    pub closed spec fn denominator(self) -> nat {
        self.den as nat
    }

    /// The sum as a pair.
    pub open spec fn fraction(self) -> (nat, nat) {
        (self.numerator(), self.denominator())
    }

    /// The sum of nothing.
    pub fn zero() -> (sum: PriceSum)
        ensures
            sum.fraction() == (0nat, 1nat),
    {
        PriceSum { num: 0, den: 1 }
    }

    /// Adds a price: `None` exactly when the new sum does not fit in 128
    /// bits.
    pub fn plus(&self, price: &UnitPrice) -> (sum: Option<PriceSum>)
        ensures
            match sum {
                Some(s) => s.numerator() == self.numerator() * price.divisor() + price.numerator()
                    * self.denominator() && s.denominator() == self.denominator()
                    * price.divisor(),
                None => !fits(
                    (
                        self.numerator() * price.divisor() + price.numerator()
                            * self.denominator(),
                        self.denominator() * price.divisor(),
                    ),
                ),
            },
    {
        let pn = price.numerator_atto();
        let pd = price.divisor_value() as u128;
        let ghost n = self.num as int;
        let ghost d = self.den as int;
        proof {
            use_type_invariant(self);
            assert(1 <= d * pd) by (nonlinear_arith)
                requires
                    1 <= d,
                    1 <= pd,
            ;
            assert(0 <= n * pd) by (nonlinear_arith)
                requires
                    0 <= n,
                    0 <= pd,
            ;
            assert(0 <= pn * d) by (nonlinear_arith)
                requires
                    0 <= pn,
                    0 <= d,
            ;
        }
        let left = match self.num.checked_mul(pd) {
            Some(left) => left,
            None => {
                return None;
            },
        };
        let right = match pn.checked_mul(self.den) {
            Some(right) => right,
            None => {
                return None;
            },
        };
        let num = match left.checked_add(right) {
            Some(num) => num,
            None => {
                return None;
            },
        };
        let den = match self.den.checked_mul(pd) {
            Some(den) => den,
            None => {
                return None;
            },
        };
        Some(PriceSum { num, den })
    }

    /// Gives the numerator of the sum, in units of `10^-18`.
    pub fn numerator_value(&self) -> (n: u128)
        ensures
            n == self.numerator(),
    {
        self.num
    }

    /// Gives the divisor of the sum.
    pub fn denominator_value(&self) -> (d: u128)
        ensures
            d == self.denominator(),
            d >= 1,
    {
        proof {
            use_type_invariant(self);
        }
        self.den
    }

    /// A fifth of the sum, in thousandths, rounded to the nearest thousandth
    /// with halves rounded up: `None` exactly when that cannot be worked out
    /// in 128 bits.
    pub fn average_thousandths(&self) -> (average: Option<u128>)
        ensures
            match average {
                Some(r) => 2 * thousandth_divisor(self.denominator()) * r <= 2 * self.numerator()
                    + thousandth_divisor(self.denominator()) < 2 * thousandth_divisor(
                    self.denominator(),
                ) * (r + 1),
                None => 2 * self.numerator() + thousandth_divisor(self.denominator()) > u128::MAX
                    || 2 * thousandth_divisor(self.denominator()) > u128::MAX,
            },
    {
        proof {
            use_type_invariant(self);
        }
        let fivefold = match self.den.checked_mul(5) {
            Some(x) => x,
            None => {
                return None;
            },
        };
        let divisor = match fivefold.checked_mul(1_000_000_000_000_000) {
            Some(x) => x,
            None => {
                return None;
            },
        };
        assert(divisor == thousandth_divisor(self.denominator()));
        let double_divisor = match divisor.checked_mul(2) {
            Some(x) => x,
            None => {
                return None;
            },
        };
        let double = match self.num.checked_mul(2) {
            Some(x) => x,
            None => {
                return None;
            },
        };
        let shifted = match double.checked_add(divisor) {
            Some(x) => x,
            None => {
                return None;
            },
        };
        let r = shifted / double_divisor;
        proof {
            let a = shifted as int;
            let b = double_divisor as int;
            assert(b * (a / b) <= a < b * (a / b + 1)) by (nonlinear_arith)
                requires
                    a >= 0,
                    b >= 1,
            ;
        }
        Some(r)
    }
}

/// What a sum over the divisor `denominator`, in units of `10^-18`, is
/// divided by to give a fifth of it in thousandths.
pub open spec fn thousandth_divisor(denominator: nat) -> nat {
    denominator * 5 * 1_000_000_000_000_000
}

/// Gives the prices of the first `count` offers per unit of experience, or
/// the fault of the first of them whose price cannot be read.
fn read_prices(offers: &Vec<CardInformation>, count: usize) -> (read: Result<
    Vec<UnitPrice>,
    NumericError,
>)
    requires
        count <= offers@.len(),
    ensures
        match (read, prices_of(offers@.take(count as int))) {
            (Ok(prices), Ok(expected)) => prices@.len() == expected.len() && forall|i: int|
                0 <= i < expected.len() ==> (#[trigger] prices@[i]).numerator() == expected[i].0
                    && prices@[i].divisor() == expected[i].1,
            (Err(e), Err(expected)) => e == expected,
            _ => false,
        },
{
    let mut prices: Vec<UnitPrice> = Vec::new();
    let mut i: usize = 0;
    while i < count
        invariant
            i <= count <= offers@.len(),
            prices_of(offers@.take(i as int)) is Ok,
            prices@.len() == i,
            prices_of(offers@.take(i as int))->Ok_0.len() == i,
            forall|k: int|
                0 <= k < i ==> (#[trigger] prices@[k]).numerator() == prices_of(
                    offers@.take(i as int),
                )->Ok_0[k].0 && prices@[k].divisor() == prices_of(offers@.take(i as int))->Ok_0[k].1,
        decreases count - i,
    {
        proof {
            assert(offers@.take(i as int + 1).drop_last() =~= offers@.take(i as int));
            assert(offers@.take(i as int + 1).last() == offers@[i as int]);
        }
        match effective_unit_price(&offers[i]) {
            Ok(price) => {
                prices.push(price);
            },
            Err(e) => {
                proof {
                    lemma_prices_fault_stays(offers@.take(count as int), i as int + 1);
                    assert(offers@.take(count as int).take(i as int + 1) =~= offers@.take(
                        i as int + 1,
                    ));
                }
                return Err(e);
            },
        }
        i += 1;
    }
    Ok(prices)
}

/// A fault among the first `k` offers is the fault of all.
proof fn lemma_prices_fault_stays(offers: Seq<CardInformation>, k: int)
    requires
        0 <= k <= offers.len(),
        prices_of(offers.take(k)) is Err,
    ensures
        prices_of(offers) == prices_of(offers.take(k)),
    decreases offers.len() - k,
{
    if k < offers.len() {
        assert(offers.take(k + 1).drop_last() =~= offers.take(k));
        lemma_prices_fault_stays(offers, k + 1);
    } else {
        assert(offers.take(k) =~= offers);
    }
}

/// A sum only grows as prices are added: where the sum of the first prices
/// does not fit, the sum of all does not either.
pub proof fn lemma_sum_grows(prices: Seq<(nat, nat)>, k: int)
    requires
        0 <= k <= prices.len(),
        forall|i: int| 0 <= i < prices.len() ==> (#[trigger] prices[i]).1 >= 1,
    ensures
        sum_of(prices.take(k)).0 <= sum_of(prices).0,
        sum_of(prices.take(k)).1 <= sum_of(prices).1,
        sum_of(prices).1 >= 1,
    decreases prices.len() - k,
{
    if k < prices.len() {
        lemma_sum_grows(prices, k + 1);
        assert(prices.take(k + 1).drop_last() =~= prices.take(k));
        let (n, d) = sum_of(prices.take(k));
        let (pn, pd) = prices[k];
        assert(prices.take(k + 1).last() == prices[k]);
        lemma_sum_positive(prices.take(k));
        assert(n * pd + pn * d >= n && d * pd >= d) by (nonlinear_arith)
            requires
                pd >= 1,
                d >= 1,
                n >= 0,
                pn >= 0,
        ;
    } else {
        assert(prices.take(k) =~= prices);
        lemma_sum_positive(prices);
    }
}

/// The divisor of a sum is at least one.
proof fn lemma_sum_positive(prices: Seq<(nat, nat)>)
    requires
        forall|i: int| 0 <= i < prices.len() ==> (#[trigger] prices[i]).1 >= 1,
    ensures
        sum_of(prices).1 >= 1,
    decreases prices.len(),
{
    if prices.len() > 0 {
        lemma_sum_positive(prices.drop_last());
        let (n, d) = sum_of(prices.drop_last());
        let (pn, pd) = prices.last();
        assert(d * pd >= 1) by (nonlinear_arith)
            requires
                pd >= 1,
                d >= 1,
        ;
    }
}

/// What the sum of the first offers' prices comes to: the fault of the first
/// price that cannot be read, else an overflow if the sum does not fit, else
/// the sum.
pub open spec fn top_sum(offers: Seq<CardInformation>) -> Result<(nat, nat), NumericError> {
    match prices_of(top_offers(offers)) {
        Err(e) => Err(e),
        Ok(prices) => if fits(sum_of(prices)) {
            Ok(sum_of(prices))
        } else {
            Err(NumericError::Overflow)
        },
    }
}

/// Adds up the prices of the first five offers, or of all if there are
/// fewer.
pub fn sum_top_prices(offers: &Vec<CardInformation>) -> (sum: Result<PriceSum, NumericError>)
    ensures
        match (sum, top_sum(offers@)) {
            (Ok(s), Ok(expected)) => s.fraction() == expected && s.denominator() >= 1,
            (Err(e), Err(expected)) => e == expected,
            _ => false,
        },
{
    let count = if offers.len() <= CARD_TOP_N {
        offers.len()
    } else {
        CARD_TOP_N
    };
    assert(offers@.take(count as int) =~= top_offers(offers@));
    let prices = match read_prices(offers, count) {
        Ok(prices) => prices,
        Err(e) => {
            return Err(e);
        },
    };
    let ghost expected = prices_of(top_offers(offers@))->Ok_0;
    proof {
        lemma_prices_all_read(top_offers(offers@));
        assert forall|i: int| 0 <= i < expected.len() implies (#[trigger] expected[i]).1 >= 1 by {
            assert(unit_price_of(top_offers(offers@)[i]) is Ok);
        }
    }
    let mut sum = PriceSum::zero();
    let mut i: usize = 0;
    while i < prices.len()
        invariant
            i <= prices@.len(),
            prices@.len() == expected.len(),
            forall|k: int|
                0 <= k < expected.len() ==> (#[trigger] prices@[k]).numerator() == expected[k].0
                    && prices@[k].divisor() == expected[k].1,
            forall|k: int| 0 <= k < expected.len() ==> (#[trigger] expected[k]).1 >= 1,
            sum.fraction() == sum_of(expected.take(i as int)),
            expected == prices_of(top_offers(offers@))->Ok_0,
            prices_of(top_offers(offers@)) is Ok,
        decreases prices@.len() - i,
    {
        proof {
            assert(expected.take(i as int + 1).drop_last() =~= expected.take(i as int));
            assert(expected.take(i as int + 1).last() == expected[i as int]);
            lemma_sum_grows(expected, i as int + 1);
        }
        sum = match sum.plus(&prices[i]) {
            Some(next) => next,
            None => {
                return Err(NumericError::Overflow);
            },
        };
        i += 1;
    }
    proof {
        assert(expected.take(prices@.len() as int) =~= expected);
        lemma_sum_grows(expected, 0);
    }
    Ok(sum)
}

/// Whether an offer at the price `price` costs at most half the average of
/// `sum`, the average being a fifth of the sum.
pub open spec fn at_most_half_average(price: (nat, nat), sum: (nat, nat)) -> bool {
    10 * price.0 * sum.1 <= sum.0 * price.1
}

/// Whether the first offer of `offers` is to be bought by the rule of the
/// half average: there is a first offer, and it costs at most half the
/// average of the first five.
///
/// The answer is an error where a price among the first five cannot be read,
/// and an overflow where the sum does not fit in 128 bits, or where neither
/// side of the comparison does.
pub open spec fn half_average_verdict(offers: Seq<CardInformation>) -> Result<bool, NumericError> {
    match top_sum(offers) {
        Err(e) => Err(e),
        Ok(sum) => if offers.len() == 0 {
            Ok(false)
        } else {
            let price = unit_price_of(offers[0])->Ok_0;
            if 10 * price.0 * sum.1 > u128::MAX && sum.0 * price.1 > u128::MAX {
                Err(NumericError::Overflow)
            } else {
                Ok(at_most_half_average(price, sum))
            }
        },
    }
}

/// Decides whether the first offer of an item is to be bought by the rule of
/// the half average.
pub fn buy_at_half_average(offers: &Vec<CardInformation>) -> (decided: Result<bool, NumericError>)
    ensures
        decided == half_average_verdict(offers@),
{
    let sum = match sum_top_prices(offers) {
        Ok(sum) => sum,
        Err(e) => {
            return Err(e);
        },
    };
    if offers.len() == 0 {
        return Ok(false);
    }
    proof {
        lemma_first_price_is_read(offers@);
        assert(top_offers(offers@)[0] == offers@[0]);
    }
    let price = match effective_unit_price(&offers[0]) {
        Ok(price) => price,
        Err(e) => {
            return Err(e);
        },
    };
    let pn = price.numerator_atto();
    let pd = price.divisor_value() as u128;
    proof {
        lemma_pow10_18();
    }
    let tenfold: u128 = 10 * pn;
    let ghost lhs = 10 * pn * sum.denominator();
    let ghost rhs = sum.numerator() * pd;
    proof {
        assert(tenfold * sum.denominator() == lhs) by (nonlinear_arith)
            requires
                tenfold == 10 * pn,
                lhs == 10 * pn * sum.denominator(),
        ;
    }
    let left = tenfold.checked_mul(sum.denominator_value());
    let right = sum.numerator_value().checked_mul(pd);
    match (left, right) {
        (Some(l), Some(r)) => Ok(l <= r),
        (None, Some(_)) => Ok(false),
        (Some(_), None) => Ok(true),
        (None, None) => Err(NumericError::Overflow),
    }
}

/// Where the prices of the first offers can all be read, the price of the
/// first offer can.
proof fn lemma_first_price_is_read(offers: Seq<CardInformation>)
    requires
        offers.len() > 0,
        prices_of(top_offers(offers)) is Ok,
    ensures
        unit_price_of(offers[0]) is Ok,
{
    lemma_prices_all_read(top_offers(offers));
    assert(top_offers(offers)[0] == offers[0]);
}

/// Where the prices of `offers` can all be read, each of them can, and the
/// prices are as many as the offers.
proof fn lemma_prices_all_read(offers: Seq<CardInformation>)
    requires
        prices_of(offers) is Ok,
    ensures
        prices_of(offers)->Ok_0.len() == offers.len(),
        forall|i: int|
            0 <= i < offers.len() ==> unit_price_of(#[trigger] offers[i]) is Ok && prices_of(
                offers,
            )->Ok_0[i] == unit_price_of(offers[i])->Ok_0,
    decreases offers.len(),
{
    if offers.len() > 0 {
        lemma_prices_all_read(offers.drop_last());
        assert forall|i: int| 0 <= i < offers.len() implies unit_price_of(
            #[trigger] offers[i],
        ) is Ok && prices_of(offers)->Ok_0[i] == unit_price_of(offers[i])->Ok_0 by {
            if i < offers.len() - 1 {
                assert(offers.drop_last()[i] == offers[i]);
            }
        }
    }
}

/// Whether a gold offer is cheap against the sum of the plain card's first
/// prices: the marketplace gives its price per unit of experience, that price
/// can be read, and it is below eleven tenths of the average, the average
/// being a fifth of the sum.
pub open spec fn gold_is_cheap(gold: CardInformation, sum: (nat, nat)) -> bool {
    let list = gold.metadata_list@;
    let place = field_index(list, unit_price_field());
    &&& place < list.len()
    &&& parse_decimal(list[place as int].value@) matches Ok((mantissa, scale))
    &&& 50 * atto_of(mantissa, scale) * sum.1 < 11 * sum.0
}

/// Whether the comparison for a gold offer can be made in 128 bits: not both
/// of its sides are too large.
pub open spec fn gold_is_comparable(gold: CardInformation, sum: (nat, nat)) -> bool {
    let list = gold.metadata_list@;
    let place = field_index(list, unit_price_field());
    place < list.len() ==> (parse_decimal(list[place as int].value@) matches Ok(
        (mantissa, scale),
    ) ==> !(50 * atto_of(mantissa, scale) * sum.1 > u128::MAX && 11 * sum.0 > u128::MAX))
}

/// The first offers of the gold card: those that are looked at.
pub open spec fn gold_offers(gold: Seq<CardInformation>) -> Seq<CardInformation> {
    if gold.len() <= CARD_GOLD_TOP_N {
        gold
    } else {
        gold.take(CARD_GOLD_TOP_N as int)
    }
}

/// Whether `picked` holds, in rising order, exactly the places of the gold
/// offers that are looked at and are cheap against `sum`.
pub open spec fn picks_cheap_gold(
    picked: Seq<usize>,
    gold: Seq<CardInformation>,
    sum: (nat, nat),
) -> bool {
    &&& forall|k: int|
        0 <= k < picked.len() ==> (#[trigger] picked[k]) < gold_offers(gold).len() && gold_is_cheap(
            gold[picked[k] as int],
            sum,
        )
    &&& forall|k: int, l: int| 0 <= k < l < picked.len() ==> picked[k] < picked[l]
    &&& forall|i: int|
        0 <= i < gold_offers(gold).len() && gold_is_cheap(#[trigger] gold[i], sum)
            ==> picked.contains(i as usize)
}

/// Decides which offers of a gold card are to be bought, by the rule of the
/// plain card's average.
///
/// With fewer than ten offers of the plain card nothing is bought. Else each
/// of the first three gold offers is bought that is cheap against the sum of
/// the plain card's first five prices. The places of those offers are given,
/// in rising order.
pub fn cheap_gold_offers(plain: &Vec<CardInformation>, gold: &Vec<CardInformation>) -> (decided:
    Result<Vec<usize>, NumericError>)
    ensures
        match decided {
            Ok(picked) => if plain@.len() < CARD_NUMBER_GREATER {
                picked@.len() == 0
            } else {
                top_sum(plain@) matches Ok(sum) && picks_cheap_gold(picked@, gold@, sum)
            },
            Err(e) => plain@.len() >= CARD_NUMBER_GREATER && match top_sum(plain@) {
                Err(expected) => e == expected,
                Ok(sum) => e == NumericError::Overflow && exists|i: int|
                    0 <= i < gold_offers(gold@).len() && !gold_is_comparable(
                        #[trigger] gold@[i],
                        sum,
                    ),
            },
        },
{
    let mut picked: Vec<usize> = Vec::new();
    if plain.len() < CARD_NUMBER_GREATER {
        return Ok(picked);
    }
    let sum = match sum_top_prices(plain) {
        Ok(sum) => sum,
        Err(e) => {
            return Err(e);
        },
    };
    let count = if gold.len() <= CARD_GOLD_TOP_N {
        gold.len()
    } else {
        CARD_GOLD_TOP_N
    };
    let ghost exact = sum.fraction();
    let denominator = sum.denominator_value();
    let elevenfold = sum.numerator_value().checked_mul(11);
    let mut i: usize = 0;
    while i < count
        invariant
            i <= count,
            count == gold_offers(gold@).len(),
            count <= gold@.len(),
            exact == sum.fraction(),
            exact.1 >= 1,
            denominator == exact.1,
            plain@.len() >= CARD_NUMBER_GREATER,
            top_sum(plain@) == Ok::<(nat, nat), NumericError>(exact),
            elevenfold == (if 11 * exact.0 > u128::MAX {
                None
            } else {
                Some((11 * exact.0) as u128)
            }),
            forall|k: int|
                0 <= k < picked@.len() ==> (#[trigger] picked@[k]) < i && gold_is_cheap(
                    gold@[picked@[k] as int],
                    exact,
                ),
            forall|k: int, l: int| 0 <= k < l < picked@.len() ==> picked@[k] < picked@[l],
            forall|j: int|
                0 <= j < i && gold_is_cheap(#[trigger] gold@[j], exact) ==> picked@.contains(
                    j as usize,
                ),
        decreases count - i,
    {
        let ghost before = picked@;
        match explicit_unit_price(&gold[i]) {
            Some(price) => {
                let amount = price.to_atto();
                let left = match amount.checked_mul(50) {
                    Some(fifty) => fifty.checked_mul(denominator),
                    None => None,
                };
                proof {
                    let d = exact.1;
                    assert(50 * amount * d == (amount * 50) * d) by (nonlinear_arith);
                    if amount * 50 > u128::MAX {
                        assert((amount * 50) * d > u128::MAX) by (nonlinear_arith)
                            requires
                                amount * 50 > u128::MAX,
                                d >= 1,
                        ;
                    }
                }
                let cheap = match (left, elevenfold) {
                    (Some(l), Some(r)) => l < r,
                    (None, Some(_)) => false,
                    (Some(_), None) => true,
                    (None, None) => {
                        assert(!gold_is_comparable(gold@[i as int], exact));
                        return Err(NumericError::Overflow);
                    },
                };
                assert(cheap == gold_is_cheap(gold@[i as int], exact));
                if cheap {
                    picked.push(i);
                    proof {
                        assert(picked@[before.len() as int] == i);
                        assert forall|j: int|
                            0 <= j < i + 1 && gold_is_cheap(
                                #[trigger] gold@[j],
                                exact,
                            ) implies picked@.contains(j as usize) by {
                            if j < i {
                                assert(before.contains(j as usize));
                                let at = choose|at: int|
                                    0 <= at < before.len() && before[at] == j as usize;
                                assert(picked@[at] == j as usize);
                            }
                        }
                    }
                }
            },
            None => {
                assert(!gold_is_cheap(gold@[i as int], exact));
            },
        }
        i += 1;
    }
    Ok(picked)
}

/// The rule of the half average for one item, from what fetching its offers
/// gave.
pub fn half_average_for(response: &MarketHomeResponse) -> (decided: Result<bool, NumericError>)
    ensures
        decided == half_average_verdict(response.list@),
{
    buy_at_half_average(&response.list)
}

/// The plain cards that are held against their gold cards: the animals, the
/// zombies and the plants that are traded in both kinds.
pub open spec fn plain_cards_with_gold() -> Seq<NftCardId> {
    seq![
        NftCardId::WolfKing,
        NftCardId::MasterPanda,
        NftCardId::LionKing,
        NftCardId::FuriousTiger,
        NftCardId::CunningFox,
        NftCardId::Frog,
        NftCardId::Snake,
        NftCardId::AngryBull,
        NftCardId::TortoiseBro,
        NftCardId::CrazyDoctorZombie,
        NftCardId::SuperZombie,
        NftCardId::PirateZombie,
        NftCardId::PartyZombie,
        NftCardId::BarrelZombie,
        NftCardId::PrinceZombie,
        NftCardId::StarZombie,
        NftCardId::ClownZombie,
        NftCardId::BombZombie,
        NftCardId::CheerleaderZombie,
        NftCardId::RoadblockZombie,
        NftCardId::DancerZombie,
        NftCardId::ZombieBride,
        NftCardId::DurianCommander,
        NftCardId::Garlic,
        NftCardId::Pumpkin,
        NftCardId::Cabbage,
        NftCardId::Watermelon,
        NftCardId::GrandpaBroccoli,
        NftCardId::MrTomato,
        NftCardId::Avocado,
        NftCardId::DurianAgent,
        NftCardId::Pineapple,
        NftCardId::RedChili,
        NftCardId::Cactus,
        NftCardId::Radish,
    ]
}

/// The gold card of a plain card of [`plain_cards_with_gold`].
pub open spec fn gold_of(plain: NftCardId) -> NftCardId {
    match plain {
        NftCardId::WolfKing => NftCardId::WolfKingGold,
        NftCardId::MasterPanda => NftCardId::MasterPandaGold,
        NftCardId::LionKing => NftCardId::LionKingGold,
        NftCardId::FuriousTiger => NftCardId::FuriousTigerGold,
        NftCardId::CunningFox => NftCardId::CunningFoxGold,
        NftCardId::Frog => NftCardId::FrogGold,
        NftCardId::Snake => NftCardId::SnakeGold,
        NftCardId::AngryBull => NftCardId::AngryBullGold,
        NftCardId::TortoiseBro => NftCardId::TortoiseBroGold,
        NftCardId::CrazyDoctorZombie => NftCardId::CrazyDoctorZombieGold,
        NftCardId::SuperZombie => NftCardId::SuperZombieGold,
        NftCardId::PirateZombie => NftCardId::PirateZombieGold,
        NftCardId::PartyZombie => NftCardId::PartyZombieGold,
        NftCardId::BarrelZombie => NftCardId::BarrelZombieGold,
        NftCardId::PrinceZombie => NftCardId::PrinceZombieGold,
        NftCardId::StarZombie => NftCardId::StarZombieGold,
        NftCardId::ClownZombie => NftCardId::ClownZombieGold,
        NftCardId::BombZombie => NftCardId::BombZombieGold,
        NftCardId::CheerleaderZombie => NftCardId::CheerleaderZombieGold,
        NftCardId::RoadblockZombie => NftCardId::RoadblockZombieGold,
        NftCardId::DancerZombie => NftCardId::DancerZombieGold,
        NftCardId::ZombieBride => NftCardId::ZombieBrideGold,
        NftCardId::DurianCommander => NftCardId::DurianCommanderGold,
        NftCardId::Garlic => NftCardId::GarlicGold,
        NftCardId::Pumpkin => NftCardId::PumpkinGold,
        NftCardId::Cabbage => NftCardId::CabbageGold,
        NftCardId::Watermelon => NftCardId::WatermelonGold,
        NftCardId::GrandpaBroccoli => NftCardId::GrandpaBroccoliGold,
        NftCardId::MrTomato => NftCardId::MrTomatoGold,
        NftCardId::Avocado => NftCardId::AvocadoGold,
        NftCardId::DurianAgent => NftCardId::DurianAgentGold,
        NftCardId::Pineapple => NftCardId::PineappleGold,
        NftCardId::RedChili => NftCardId::RedChiliGold,
        NftCardId::Cactus => NftCardId::CactusGold,
        NftCardId::Radish => NftCardId::RadishGold,
        other => other,
    }
}

/// Gives the pairs of a plain card and its gold card that the rule of the
/// plain card's average is applied to, each plain card once.
pub fn gold_pairs() -> (pairs: Vec<(NftCardId, NftCardId)>)
    ensures
        pairs@.len() == plain_cards_with_gold().len(),
        forall|i: int|
            0 <= i < pairs@.len() ==> (#[trigger] pairs@[i]).0 == plain_cards_with_gold()[i]
                && pairs@[i].1 == gold_of(pairs@[i].0),
{
    let mut pairs: Vec<(NftCardId, NftCardId)> = Vec::new();
    pairs.push((NftCardId::WolfKing, NftCardId::WolfKingGold));
    pairs.push((NftCardId::MasterPanda, NftCardId::MasterPandaGold));
    pairs.push((NftCardId::LionKing, NftCardId::LionKingGold));
    pairs.push((NftCardId::FuriousTiger, NftCardId::FuriousTigerGold));
    pairs.push((NftCardId::CunningFox, NftCardId::CunningFoxGold));
    pairs.push((NftCardId::Frog, NftCardId::FrogGold));
    pairs.push((NftCardId::Snake, NftCardId::SnakeGold));
    pairs.push((NftCardId::AngryBull, NftCardId::AngryBullGold));
    pairs.push((NftCardId::TortoiseBro, NftCardId::TortoiseBroGold));
    pairs.push((NftCardId::CrazyDoctorZombie, NftCardId::CrazyDoctorZombieGold));
    pairs.push((NftCardId::SuperZombie, NftCardId::SuperZombieGold));
    pairs.push((NftCardId::PirateZombie, NftCardId::PirateZombieGold));
    pairs.push((NftCardId::PartyZombie, NftCardId::PartyZombieGold));
    pairs.push((NftCardId::BarrelZombie, NftCardId::BarrelZombieGold));
    pairs.push((NftCardId::PrinceZombie, NftCardId::PrinceZombieGold));
    pairs.push((NftCardId::StarZombie, NftCardId::StarZombieGold));
    pairs.push((NftCardId::ClownZombie, NftCardId::ClownZombieGold));
    pairs.push((NftCardId::BombZombie, NftCardId::BombZombieGold));
    pairs.push((NftCardId::CheerleaderZombie, NftCardId::CheerleaderZombieGold));
    pairs.push((NftCardId::RoadblockZombie, NftCardId::RoadblockZombieGold));
    pairs.push((NftCardId::DancerZombie, NftCardId::DancerZombieGold));
    pairs.push((NftCardId::ZombieBride, NftCardId::ZombieBrideGold));
    pairs.push((NftCardId::DurianCommander, NftCardId::DurianCommanderGold));
    pairs.push((NftCardId::Garlic, NftCardId::GarlicGold));
    pairs.push((NftCardId::Pumpkin, NftCardId::PumpkinGold));
    pairs.push((NftCardId::Cabbage, NftCardId::CabbageGold));
    pairs.push((NftCardId::Watermelon, NftCardId::WatermelonGold));
    pairs.push((NftCardId::GrandpaBroccoli, NftCardId::GrandpaBroccoliGold));
    pairs.push((NftCardId::MrTomato, NftCardId::MrTomatoGold));
    pairs.push((NftCardId::Avocado, NftCardId::AvocadoGold));
    pairs.push((NftCardId::DurianAgent, NftCardId::DurianAgentGold));
    pairs.push((NftCardId::Pineapple, NftCardId::PineappleGold));
    pairs.push((NftCardId::RedChili, NftCardId::RedChiliGold));
    pairs.push((NftCardId::Cactus, NftCardId::CactusGold));
    pairs.push((NftCardId::Radish, NftCardId::RadishGold));
    pairs
}

} // verus!
