//! Exact non-negative decimal amounts, read from text and compared as numbers.
//!
//! A price arrives as text such as `"5.00"`. It is read into a [`Decimal`],
//! a whole number of digits together with the count of digits that follow the
//! point, and every comparison is made on the numbers, never on the text.

use vstd::prelude::*;
use vstd::string::*;
use vstd::utf8::is_ascii_chars;

verus! {

/// The largest number of digits a [`Decimal`] keeps after the point.
pub const MAX_SCALE: u8 = 18;

/// Why a piece of text is not an amount this library can hold.
#[derive(Debug, Clone, Copy, PartialEq, Eq, Structural)]
pub enum NumericError {
    /// The text is empty.
    Empty,
    /// The text is not digits with at most one point among them.
    Malformed,
    /// The text is a number, with more digits than a [`Decimal`] holds.
    OutOfRange,
    /// An amount was to be divided by a level of zero.
    ZeroLevel,
    /// An exact result does not fit in 128 bits.
    Overflow,
}

/// Ten to the power `n`.
pub open spec fn pow10(n: nat) -> nat
    decreases n,
{
    if n == 0 {
        1
    } else {
        10 * pow10((n - 1) as nat)
    }
}

/// The value, in units of `10^-18`, of the amount `mantissa / 10^scale`.
pub open spec fn atto_of(mantissa: nat, scale: nat) -> nat {
    mantissa * pow10((MAX_SCALE - scale) as nat)
}

/// Whether `c` is one of the ten digits.
pub open spec fn is_digit(c: char) -> bool {
    '0' <= c && c <= '9'
}

/// The number a digit stands for.
pub open spec fn digit_value(c: char) -> nat {
    (c as int - '0' as int) as nat
}

/// Whether every character of `s` is a digit.
pub open spec fn all_digits(s: Seq<char>) -> bool {
    forall|i: int| 0 <= i < s.len() ==> is_digit(#[trigger] s[i])
}

/// The number that a run of digits writes in base ten.
pub open spec fn number(digits: Seq<char>) -> nat
    decreases digits.len(),
{
    if digits.len() == 0 {
        0
    } else {
        number(digits.drop_last()) * 10 + digit_value(digits.last())
    }
}

/// The place of the first point in `s`, or the length of `s` if it has none.
pub open spec fn point_index(s: Seq<char>) -> nat
    decreases s.len(),
{
    if s.len() == 0 {
        0
    } else if s[0] == '.' {
        0
    } else {
        1 + point_index(s.drop_first())
    }
}

/// What stands before the first point.
pub open spec fn whole_part(s: Seq<char>) -> Seq<char> {
    s.take(point_index(s) as int)
}

/// What stands after the first point; empty where there is no point.
pub open spec fn fraction_part(s: Seq<char>) -> Seq<char> {
    if point_index(s) < s.len() {
        s.skip(point_index(s) as int + 1)
    } else {
        Seq::empty()
    }
}

/// The grammar of an amount: digits, then optionally a point and digits, with
/// at least one digit in all.
pub open spec fn is_decimal_text(s: Seq<char>) -> bool {
    &&& all_digits(whole_part(s))
    &&& all_digits(fraction_part(s))
    &&& whole_part(s).len() + fraction_part(s).len() >= 1
}

/// What reading `s` gives: the digits as one number and the count of digits
/// after the point, or the reason why `s` cannot be held.
pub open spec fn parse_decimal(s: Seq<char>) -> Result<(nat, nat), NumericError> {
    if s.len() == 0 {
        Err(NumericError::Empty)
    } else if !is_decimal_text(s) {
        Err(NumericError::Malformed)
    } else if fraction_part(s).len() > MAX_SCALE || number(whole_part(s) + fraction_part(s))
        > u64::MAX {
        Err(NumericError::OutOfRange)
    } else {
        Ok((number(whole_part(s) + fraction_part(s)), fraction_part(s).len()))
    }
}

/// The amount that reading `s` gives, or the reason why `s` cannot be held.
pub open spec fn read_decimal(s: Seq<char>) -> Result<Decimal, NumericError> {
    match parse_decimal(s) {
        Ok((mantissa, scale)) => Ok(Decimal::from_parts(mantissa, scale)),
        Err(e) => Err(e),
    }
}

/// A non-negative amount: `mantissa / 10^scale`, with `scale` at most
/// [`MAX_SCALE`].
#[derive(Debug, Clone, Copy)]
pub struct Decimal {
    mantissa: u64,
    scale: u8,
}

impl Decimal {
    #[verifier::type_invariant]
    spec fn well_formed(self) -> bool {
        self.scale <= MAX_SCALE
    }

    /// The digits of the amount, read as one whole number.
    pub closed spec fn mantissa(self) -> nat {
        self.mantissa as nat
    }

    /// How many of those digits follow the point.
    pub closed spec fn scale(self) -> nat {
        self.scale as nat
    }

    /// The amount `mantissa / 10^scale`, for a mantissa of 64 bits and a scale
    /// of at most [`MAX_SCALE`].
    pub closed spec fn from_parts(mantissa: nat, scale: nat) -> Decimal {
        Decimal { mantissa: mantissa as u64, scale: scale as u8 }
    }

    /// The amount in units of `10^-18`: a whole number that orders amounts as
    /// their values do.
    pub open spec fn atto(self) -> nat {
        atto_of(self.mantissa(), self.scale())
    }

    /// Every amount has at most eighteen digits after the point and a
    /// mantissa of 64 bits, so its value in `10^-18` units stays below
    /// `2^64 * 10^18`.
    pub proof fn lemma_bounds(self)
        requires
            self.scale() <= MAX_SCALE,
        ensures
            self.mantissa() <= u64::MAX,
            self.atto() <= u64::MAX * pow10(18),
    {
        lemma_pow10_monotonic((MAX_SCALE - self.scale()) as nat, 18);
        assert(self.mantissa() * pow10((MAX_SCALE - self.scale()) as nat) <= u64::MAX * pow10(18))
            by (nonlinear_arith)
            requires
                self.mantissa() <= u64::MAX,
                pow10((MAX_SCALE - self.scale()) as nat) <= pow10(18),
        ;
    }

    /// Makes the amount `mantissa / 10^scale`; `None` exactly when `scale`
    /// exceeds [`MAX_SCALE`].
    pub fn new(mantissa: u64, scale: u8) -> (made: Option<Decimal>)
        ensures
            made is Some <==> scale <= MAX_SCALE,
            made matches Some(d) ==> d.mantissa() == mantissa && d.scale() == scale,
    {
        if scale <= MAX_SCALE {
            Some(Decimal { mantissa, scale })
        } else {
            None
        }
    }

    /// The whole amount `units`.
    pub fn from_units(units: u64) -> (made: Decimal)
        ensures
            made.mantissa() == units,
            made.scale() == 0,
    {
        Decimal { mantissa: units, scale: 0 }
    }

    /// The digits of the amount as one number.
    pub fn mantissa_digits(&self) -> (m: u64)
        ensures
            m == self.mantissa(),
    {
        self.mantissa
    }

    /// The count of digits after the point.
    pub fn scale_digits(&self) -> (s: u8)
        ensures
            s == self.scale(),
            s <= MAX_SCALE,
    {
        proof {
            use_type_invariant(self);
        }
        self.scale
    }

    /// The amount in units of `10^-18`.
    pub fn to_atto(&self) -> (a: u128)
        ensures
            a == self.atto(),
            a <= u64::MAX * pow10(18),
    {
        proof {
            use_type_invariant(self);
            self.lemma_bounds();
            lemma_pow10_18();
        }
        let factor = pow10_exec(MAX_SCALE - self.scale);
        (self.mantissa as u128) * (factor as u128)
    }

    /// Reads an amount from text.
    ///
    /// The text is digits with at most one point among them and at least one
    /// digit; no sign, no exponent, no spaces. It is held exactly: up to
    /// eighteen digits after the point, and all digits together below `2^64`.
    pub fn parse(text: &str) -> (read: Result<Decimal, NumericError>)
        ensures
            read == read_decimal(text@),
            match (read, parse_decimal(text@)) {
                (Ok(d), Ok((mantissa, scale))) => d.mantissa() == mantissa && d.scale() == scale,
                (Err(e), Err(expected)) => e == expected,
                _ => false,
            },
    {
        broadcast use is_ascii_spec_bytes;

        let ghost s = text@;
        if !text.is_ascii() {
            proof {
                lemma_non_ascii_is_malformed(s);
            }
            return Err(NumericError::Malformed);
        }
        let bytes = text.as_bytes();
        let n = bytes.len();
        assert(n == s.len());
        assert(forall|i: int| 0 <= i < n ==> bytes@[i] == s[i] as u8);
        if n == 0 {
            return Err(NumericError::Empty);
        }
        // Find the point, and see that everything else is a digit.
        let mut point: usize = n;
        let mut i: usize = 0;
        while i < n
            invariant
                i <= n,
                n == s.len(),
                n == bytes@.len(),
                is_ascii_chars(s),
                forall|j: int| 0 <= j < n ==> bytes@[j] == s[j] as u8,
                point == n || point < i,
                point < n ==> s[point as int] == '.',
                forall|j: int| 0 <= j < i && j < point ==> is_digit(#[trigger] s[j]),
                forall|j: int| point < j < i ==> is_digit(#[trigger] s[j]),
                s == text@,
                n > 0,
            decreases n - i,
        {
            let b = bytes[i];
            let ghost c = s[i as int];
            assert(b == c as u8);
            assert('\0' <= c <= '\u{7f}');
            if b == 46 {
                assert(c == '.');
                if point < n {
                    proof {
                        lemma_point_index_is(s, point as int);
                        assert(fraction_part(s)[i - point - 1] == c);
                    }
                    return Err(NumericError::Malformed);
                }
                point = i;
            } else if 48 <= b && b <= 57 {
                assert(is_digit(c));
            } else {
                assert(!is_digit(c) && c != '.');
                proof {
                    if point < n {
                        lemma_point_index_is(s, point as int);
                        assert(fraction_part(s)[i - point - 1] == c);
                    } else {
                        assert forall|j: int| 0 <= j < i + 1 implies s[j] != '.' by {
                            if j < i {
                                assert(is_digit(s[j]));
                            }
                        }
                        lemma_point_index_at_least(s, i as int + 1);
                        lemma_point_index_bound(s);
                        assert(whole_part(s)[i as int] == c);
                    }
                }
                return Err(NumericError::Malformed);
            }
            i += 1;
        }
        proof {
            lemma_point_index_is(s, point as int);
            assert(whole_part(s) =~= s.take(point as int));
            assert(all_digits(whole_part(s)));
            if point < n {
                assert(fraction_part(s) =~= s.skip(point as int + 1));
                assert forall|k: int| 0 <= k < fraction_part(s).len() implies is_digit(
                    #[trigger] fraction_part(s)[k],
                ) by {
                    assert(fraction_part(s)[k] == s[point as int + 1 + k]);
                }
            }
            assert(all_digits(fraction_part(s)));
        }
        let fraction_len: usize = if point < n {
            n - point - 1
        } else {
            0
        };
        assert(fraction_len == fraction_part(s).len());
        assert(whole_part(s).len() == point);
        if point + fraction_len == 0 {
            return Err(NumericError::Malformed);
        }
        assert(is_decimal_text(s));
        if fraction_len > MAX_SCALE as usize {
            return Err(NumericError::OutOfRange);
        }
        // Read the digits on both sides of the point as one number.
        let ghost digits = whole_part(s) + fraction_part(s);
        let mut acc: u64 = 0;
        let mut k: usize = 0;
        let total: usize = point + fraction_len;
        assert(total == digits.len());
        assert(all_digits(digits));
        while k < total
            invariant
                k <= total,
                total == digits.len(),
                total == point + fraction_len,
                point <= n,
                fraction_len == fraction_part(s).len(),
                point == whole_part(s).len(),
                point < n ==> fraction_len == n - point - 1,
                point == n ==> fraction_len == 0,
                n == s.len(),
                n == bytes@.len(),
                digits == whole_part(s) + fraction_part(s),
                whole_part(s) == s.take(point as int),
                point < n ==> fraction_part(s) == s.skip(point as int + 1),
                all_digits(digits),
                forall|j: int| 0 <= j < n ==> bytes@[j] == s[j] as u8,
                acc == number(digits.take(k as int)),
                s == text@,
                n > 0,
                is_decimal_text(s),
                fraction_len <= MAX_SCALE,
            decreases total - k,
        {
            let at: usize = if k < point {
                k
            } else {
                k + 1
            };
            let b = bytes[at];
            let ghost c = digits[k as int];
            assert(c == s[at as int]);
            assert(is_digit(c));
            assert(b == c as u8);
            let d: u64 = (b - 48) as u64;
            assert(d == digit_value(c));
            proof {
                assert(digits.take(k as int + 1).drop_last() =~= digits.take(k as int));
                assert(digits.take(k as int + 1).last() == c);
                assert(number(digits.take(k as int + 1)) == acc * 10 + d);
            }
            if acc > (u64::MAX - d) / 10 {
                proof {
                    assert(acc * 10 + d > u64::MAX);
                    lemma_number_prefix(digits, k as int + 1);
                }
                return Err(NumericError::OutOfRange);
            }
            acc = acc * 10 + d;
            k += 1;
        }
        assert(digits.take(total as int) =~= digits);
        Ok(Decimal { mantissa: acc, scale: fraction_len as u8 })
    }

    /// Whether this amount is at most `other`, as numbers.
    pub open spec fn value_le(self, other: Decimal) -> bool {
        self.atto() <= other.atto()
    }

    /// Whether this amount equals `other`, as numbers: `5` equals `5.00`.
    pub open spec fn value_eq(self, other: Decimal) -> bool {
        self.atto() == other.atto()
    }

    /// Whether this amount is at most `other`: the threshold is inclusive.
    pub fn le(&self, other: &Decimal) -> (at_most: bool)
        ensures
            at_most == self.value_le(*other),
    {
        self.to_atto() <= other.to_atto()
    }

    /// Whether this amount equals `other` as a number.
    pub fn same_value(&self, other: &Decimal) -> (same: bool)
        ensures
            same == self.value_eq(*other),
    {
        self.to_atto() == other.to_atto()
    }
}

/// Reading gives the amount with the digits and the scale of the text, or the
/// fault of the text.
pub proof fn lemma_read_decimal(s: Seq<char>)
    ensures
        match (read_decimal(s), parse_decimal(s)) {
            (Ok(amount), Ok((mantissa, scale))) => amount.mantissa() == mantissa && amount.scale()
                == scale && scale <= MAX_SCALE,
            (Err(e), Err(expected)) => e == expected,
            _ => false,
        },
{
}

/// Ten to the power `n`, for the powers a scale can ask for.
fn pow10_exec(n: u8) -> (p: u64)
    requires
        n <= MAX_SCALE,
    ensures
        p == pow10(n as nat),
        p <= 1_000_000_000_000_000_000,
{
    let mut p: u64 = 1;
    let mut i: u8 = 0;
    proof {
        lemma_pow10_18();
    }
    while i < n
        invariant
            i <= n,
            n <= MAX_SCALE,
            p == pow10(i as nat),
            p * pow10((18 - i) as nat) == 1_000_000_000_000_000_000,
        decreases n - i,
    {
        proof {
            lemma_pow10_18();
            assert(pow10((18 - i) as nat) == 10 * pow10((18 - i - 1) as nat));
            assert(p * (10 * pow10((18 - i - 1) as nat)) == (p * 10) * pow10((18 - i - 1) as nat))
                by (nonlinear_arith);
            lemma_pow10_positive((18 - i - 1) as nat);
            assert(p * 10 <= 1_000_000_000_000_000_000) by (nonlinear_arith)
                requires
                    (p * 10) * pow10((18 - i - 1) as nat) == 1_000_000_000_000_000_000,
                    pow10((18 - i - 1) as nat) >= 1,
            ;
        }
        p = p * 10;
        i += 1;
    }
    proof {
        lemma_pow10_18();
        lemma_pow10_positive((18 - n) as nat);
        assert(p <= 1_000_000_000_000_000_000) by (nonlinear_arith)
            requires
                p * pow10((18 - n) as nat) == 1_000_000_000_000_000_000,
                pow10((18 - n) as nat) >= 1,
        ;
    }
    p
}

/// `10^18` written out.
pub proof fn lemma_pow10_18()
    ensures
        pow10(18) == 1_000_000_000_000_000_000,
{
    reveal_with_fuel(pow10, 19);
}

/// A power of ten is at least one.
pub proof fn lemma_pow10_positive(n: nat)
    ensures
        pow10(n) >= 1,
    decreases n,
{
    if n > 0 {
        lemma_pow10_positive((n - 1) as nat);
    }
}

/// Powers of ten grow with the exponent.
pub proof fn lemma_pow10_monotonic(a: nat, b: nat)
    requires
        a <= b,
    ensures
        pow10(a) <= pow10(b),
    decreases b,
{
    if a < b {
        lemma_pow10_monotonic(a, (b - 1) as nat);
    }
}

/// Where the first point is: no point before `p`, and one at `p` unless `p`
/// is the length.
pub proof fn lemma_point_index_is(s: Seq<char>, p: int)
    requires
        0 <= p <= s.len(),
        forall|j: int| 0 <= j < p ==> s[j] != '.',
        p < s.len() ==> s[p] == '.',
    ensures
        point_index(s) == p,
    decreases s.len(),
{
    if s.len() > 0 && p > 0 {
        let rest = s.drop_first();
        assert forall|j: int| 0 <= j < p - 1 implies rest[j] != '.' by {
            assert(rest[j] == s[j + 1]);
        }
        lemma_point_index_is(rest, p - 1);
    }
}

/// With no point among the first `k` characters, the first point is at `k` or
/// later.
pub proof fn lemma_point_index_at_least(s: Seq<char>, k: int)
    requires
        0 <= k <= s.len(),
        forall|j: int| 0 <= j < k ==> s[j] != '.',
    ensures
        point_index(s) >= k,
    decreases s.len(),
{
    if s.len() > 0 && k > 0 {
        let rest = s.drop_first();
        assert forall|j: int| 0 <= j < k - 1 implies rest[j] != '.' by {
            assert(rest[j] == s[j + 1]);
        }
        lemma_point_index_at_least(rest, k - 1);
    }
}

/// The first point is never past the end.
pub proof fn lemma_point_index_bound(s: Seq<char>)
    ensures
        point_index(s) <= s.len(),
        forall|j: int| 0 <= j < point_index(s) ==> s[j] != '.',
        point_index(s) < s.len() ==> s[point_index(s) as int] == '.',
    decreases s.len(),
{
    if s.len() > 0 && s[0] != '.' {
        let rest = s.drop_first();
        lemma_point_index_bound(rest);
        assert forall|j: int| 0 <= j < point_index(s) implies s[j] != '.' by {
            if j > 0 {
                assert(rest[j - 1] == s[j]);
            }
        }
        if point_index(s) < s.len() {
            assert(rest[point_index(rest) as int] == s[point_index(s) as int]);
        }
    }
}

/// Text with a character outside ASCII is no amount.
proof fn lemma_non_ascii_is_malformed(s: Seq<char>)
    requires
        !is_ascii_chars(s),
    ensures
        s.len() > 0,
        !is_decimal_text(s),
{
    let i = choose|i: int| 0 <= i < s.len() && !('\0' <= #[trigger] s[i] <= '\u{7f}');
    let c = s[i];
    assert(!is_digit(c) && c != '.');
    lemma_point_index_bound(s);
    let p = point_index(s) as int;
    if i < p {
        assert(whole_part(s)[i] == c);
    } else {
        assert(i != p);
        assert(fraction_part(s)[i - p - 1] == c);
    }
}

/// Digits that follow can only make the number larger.
pub proof fn lemma_number_prefix(digits: Seq<char>, k: int)
    requires
        0 <= k <= digits.len(),
    ensures
        number(digits.take(k)) <= number(digits),
    decreases digits.len() - k,
{
    if k < digits.len() {
        lemma_number_prefix(digits, k + 1);
        assert(digits.take(k + 1).drop_last() =~= digits.take(k));
    } else {
        assert(digits.take(k) =~= digits);
    }
}

} // verus!
