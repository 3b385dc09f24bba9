//! The price of an offer per unit of experience.
//!
//! A card gains value with the experience it has gathered, so offers are
//! compared by price per unit of experience. Where the marketplace gives that
//! figure, it is taken as given; where it does not, it is the price asked
//! divided by the card's experience. The quotient is kept as a fraction and
//! compared by cross-multiplication, so nothing is rounded.

use crate::decimal::{atto_of, lemma_pow10_18, parse_decimal, pow10, Decimal, NumericError};
use crate::market_home::{CardInformation, MetadataList};
use crate::text::str_eq;
use vstd::prelude::*;
use vstd::string::*;

verus! {

/// The name under which the marketplace gives the price per unit of
/// experience.
pub open spec fn unit_price_field() -> Seq<char> {
    "Price/EXP"@
}

/// The place of the first figure named `name`, or the length of `list` if
/// there is none.
pub open spec fn field_index(list: Seq<MetadataList>, name: Seq<char>) -> nat
    decreases list.len(),
{
    if list.len() == 0 {
        0
    } else if list[0].name@ == name {
        0
    } else {
        1 + field_index(list.drop_first(), name)
    }
}

/// The price of `card` per unit of experience, as a numerator in units of
/// `10^-18` and a divisor: the figure named `Price/EXP` where the offer has
/// one, else the price asked divided by the card's experience.
pub open spec fn unit_price_of(card: CardInformation) -> Result<(nat, nat), NumericError> {
    let list = card.metadata_list@;
    let place = field_index(list, unit_price_field());
    if place < list.len() {
        match parse_decimal(list[place as int].value@) {
            Ok((mantissa, scale)) => Ok((atto_of(mantissa, scale), 1)),
            Err(e) => Err(e),
        }
    } else {
        match parse_decimal(card.sale_price@) {
            Ok((mantissa, scale)) => if card.accumulate_trait.value == 0 {
                Err(NumericError::ZeroLevel)
            } else {
                Ok((atto_of(mantissa, scale), card.accumulate_trait.value as nat))
            },
            Err(e) => Err(e),
        }
    }
}

/// A price per unit of experience: an amount divided by a whole number that
/// is at least one.
#[derive(Debug, Clone, Copy)]
pub struct UnitPrice {
    amount: Decimal,
    divisor: u32,
}

impl UnitPrice {
    #[verifier::type_invariant]
    spec fn well_formed(self) -> bool {
        self.divisor >= 1
    }

    /// The amount that is divided, in units of `10^-18`.
    pub closed spec fn numerator(self) -> nat {
        self.amount.atto()
    }

    /// What the amount is divided by.
    pub closed spec fn divisor(self) -> nat {
        self.divisor as nat
    }

    /// Whether this price is at most `max`: the threshold is inclusive.
    pub open spec fn within(self, max: Decimal) -> bool {
        self.numerator() <= max.atto() * self.divisor()
    }

    /// Whether this price equals `amount` as a number.
    pub open spec fn equals(self, amount: Decimal) -> bool {
        self.numerator() == amount.atto() * self.divisor()
    }

    /// The price `amount / divisor`; `None` exactly when `divisor` is zero.
    pub fn new(amount: Decimal, divisor: u32) -> (made: Option<UnitPrice>)
        ensures
            made is Some <==> divisor != 0,
            made matches Some(price) ==> price.numerator() == amount.atto() && price.divisor()
                == divisor,
    {
        if divisor == 0 {
            None
        } else {
            Some(UnitPrice { amount, divisor })
        }
    }

    /// The amount that is divided, in units of `10^-18`.
    pub fn numerator_atto(&self) -> (n: u128)
        ensures
            n == self.numerator(),
            n <= u64::MAX * pow10(18),
    {
        self.amount.to_atto()
    }

    /// What the amount is divided by.
    pub fn divisor_value(&self) -> (d: u32)
        ensures
            d == self.divisor(),
            d >= 1,
    {
        proof {
            use_type_invariant(self);
        }
        self.divisor
    }

    /// Whether this price is at most `max`: a price equal to `max` is within
    /// it.
    pub fn at_most(&self, max: &Decimal) -> (within: bool)
        ensures
            within == self.within(*max),
    {
        let numerator = self.numerator_atto();
        let limit = max.to_atto();
        let divisor = self.divisor_value();
        proof {
            lemma_pow10_18();
        }
        match limit.checked_mul(divisor as u128) {
            Some(scaled) => numerator <= scaled,
            None => true,
        }
    }

    /// Whether this price equals `amount` as a number.
    pub fn same_as(&self, amount: &Decimal) -> (same: bool)
        ensures
            same == self.equals(*amount),
    {
        let numerator = self.numerator_atto();
        let value = amount.to_atto();
        let divisor = self.divisor_value();
        proof {
            lemma_pow10_18();
        }
        match value.checked_mul(divisor as u128) {
            Some(scaled) => numerator == scaled,
            None => false,
        }
    }
}

/// Gives the place of the figure named `Price/EXP` among `list`: the first of
/// that name, or the length of `list` if there is none.
pub fn unit_price_place(list: &Vec<MetadataList>) -> (place: usize)
    ensures
        place == field_index(list@, unit_price_field()),
        place <= list@.len(),
{
    let n = list.len();
    let mut i: usize = 0;
    while i < n
        invariant
            i <= n,
            n == list@.len(),
            forall|j: int| 0 <= j < i ==> (#[trigger] list@[j]).name@ != unit_price_field(),
        decreases n - i,
    {
        if str_eq(list[i].name.as_str(), "Price/EXP") {
            proof {
                lemma_field_index_is(list@, unit_price_field(), i as int);
            }
            return i;
        }
        i += 1;
    }
    proof {
        lemma_field_index_is(list@, unit_price_field(), n as int);
    }
    n
}

/// Gives the price of `card` per unit of experience.
///
/// The figure named `Price/EXP` is taken where the offer has one. Else the
/// price asked is divided by the card's experience; an experience of zero is
/// an error, not a division.
pub fn effective_unit_price(card: &CardInformation) -> (price: Result<UnitPrice, NumericError>)
    ensures
        match (price, unit_price_of(*card)) {
            (Ok(p), Ok((numerator, divisor))) => p.numerator() == numerator && p.divisor()
                == divisor,
            (Err(e), Err(expected)) => e == expected,
            _ => false,
        },
{
    let place = unit_price_place(&card.metadata_list);
    if place < card.metadata_list.len() {
        return match Decimal::parse(card.metadata_list[place].value.as_str()) {
            Ok(amount) => Ok(UnitPrice { amount, divisor: 1 }),
            Err(e) => Err(e),
        };
    }
    match Decimal::parse(card.sale_price.as_str()) {
        Ok(amount) => {
            let level = card.accumulate_trait.value;
            if level == 0 {
                Err(NumericError::ZeroLevel)
            } else {
                Ok(UnitPrice { amount, divisor: level })
            }
        },
        Err(e) => Err(e),
    }
}

/// Gives the figure named `Price/EXP` of `card`, read as an amount: `None`
/// exactly when the offer has no such figure or it is no amount.
pub fn explicit_unit_price(card: &CardInformation) -> (price: Option<Decimal>)
    ensures
        match price {
            Some(amount) => {
                let list = card.metadata_list@;
                let place = field_index(list, unit_price_field());
                &&& place < list.len()
                &&& parse_decimal(list[place as int].value@) matches Ok((mantissa, scale))
                &&& amount.mantissa() == mantissa
                &&& amount.scale() == scale
            },
            None => {
                let list = card.metadata_list@;
                let place = field_index(list, unit_price_field());
                place < list.len() ==> parse_decimal(list[place as int].value@) is Err
            },
        },
{
    let place = unit_price_place(&card.metadata_list);
    if place < card.metadata_list.len() {
        match Decimal::parse(card.metadata_list[place].value.as_str()) {
            Ok(amount) => Some(amount),
            Err(_) => None,
        }
    } else {
        None
    }
}

/// Whether `card` has no figure of the marketplace for its price per unit of
/// experience.
pub open spec fn lacks_unit_price(card: CardInformation) -> bool {
    field_index(card.metadata_list@, unit_price_field()) >= card.metadata_list@.len()
}

/// Without a figure of the marketplace, the price per unit of experience is
/// the price asked divided by the experience: the quotient is exact.
pub proof fn lemma_unit_price_is_the_quotient(card: CardInformation)
    requires
        lacks_unit_price(card),
        parse_decimal(card.sale_price@) is Ok,
        card.accumulate_trait.value != 0,
    ensures
        unit_price_of(card) matches Ok((numerator, divisor)) && numerator == atto_of(
            parse_decimal(card.sale_price@)->Ok_0.0,
            parse_decimal(card.sale_price@)->Ok_0.1,
        ) && divisor == card.accumulate_trait.value,
{
}

/// Without a figure of the marketplace, an experience of zero is an error:
/// nothing is divided by zero.
pub proof fn lemma_zero_level_is_an_error(card: CardInformation)
    requires
        lacks_unit_price(card),
        parse_decimal(card.sale_price@) is Ok,
        card.accumulate_trait.value == 0,
    ensures
        unit_price_of(card) == Err::<(nat, nat), NumericError>(NumericError::ZeroLevel),
{
}

/// Where the first figure named `name` is: none before `p`, and one at `p`
/// unless `p` is the length.
pub proof fn lemma_field_index_is(list: Seq<MetadataList>, name: Seq<char>, p: int)
    requires
        0 <= p <= list.len(),
        forall|j: int| 0 <= j < p ==> (#[trigger] list[j]).name@ != name,
        p < list.len() ==> list[p].name@ == name,
    ensures
        field_index(list, name) == p,
    decreases list.len(),
{
    if list.len() > 0 && p > 0 {
        let rest = list.drop_first();
        assert(list[0].name@ != name);
        assert forall|j: int| 0 <= j < p - 1 implies (#[trigger] rest[j]).name@ != name by {
            assert(rest[j] == list[j + 1]);
        }
        lemma_field_index_is(rest, name, p - 1);
    }
}

} // verus!
