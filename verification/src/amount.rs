//! Amounts of money: fixed-point numbers with four fractional digits.
//!
//! An [`Amount`] counts ten-thousandths of a unit in an `i64`. Sums,
//! differences and comparisons are computed by `rust_decimal` on decimals of
//! scale four; the three functions that make those calls are the only part of
//! this module that is believed rather than proved.

use rust_decimal::Decimal;
use vstd::prelude::*;

verus! {

/// Number of fractional decimal digits that an [`Amount`] carries.
pub const FRACTION_DIGITS: u32 = 4;

/// An exact amount of money, counted in ten-thousandths of a unit.
///
/// The view of an amount is that count, as a mathematical integer.
#[derive(Clone, Copy, Debug, PartialEq, Eq, Hash, Structural)]
pub struct Amount {
    units: i64,
}

impl View for Amount {
    type V = int;

    closed spec fn view(&self) -> int {
        self.units as int
    }
}

/// Whether a count of `n` ten-thousandths can be held by an [`Amount`].
pub open spec fn representable(n: int) -> bool {
    i64::MIN <= n <= i64::MAX
}

/// Ten to the power `e`.
pub open spec fn pow10(e: nat) -> int
    decreases e,
{
    if e == 0 {
        1
    } else {
        10 * pow10((e - 1) as nat)
    }
}

/// Whether `units` ten-thousandths are the same number as `mantissa` divided
/// by ten to the power `scale`.
pub open spec fn denotes(units: int, mantissa: int, scale: nat) -> bool {
    units * pow10(scale) == mantissa * pow10(FRACTION_DIGITS as nat)
}

/// Sum of two fixed-point numbers of one scale, computed by `rust_decimal`.
///
/// Calls `Decimal::new` on each operand, `Add::add` on the two decimals and
/// `Decimal::mantissa` on what comes back. The contract claims that two
/// decimals of equal scale whose mantissas fit in 64 bits are added exactly,
/// without rescaling, rounding or overflow, so that the mantissa of the
/// result is the sum of the two mantissas. `Decimal::new` panics on a scale
/// above 28, which the precondition excludes.
#[verifier::external_body]
fn decimal_add(a: i64, b: i64, scale: u32) -> (sum: i128)
    requires
        scale <= 28,
    ensures
        sum == a + b,
{
    (Decimal::new(a, scale) + Decimal::new(b, scale)).mantissa()
}

/// Difference of two fixed-point numbers of one scale, computed by
/// `rust_decimal`.
///
/// Calls `Decimal::new` on each operand, `Sub::sub` on the two decimals and
/// `Decimal::mantissa` on what comes back. The contract claims that two
/// decimals of equal scale whose mantissas fit in 64 bits are subtracted
/// exactly, so that the mantissa of the result is the difference of the two
/// mantissas. `Decimal::new` panics on a scale above 28, which the
/// precondition excludes.
#[verifier::external_body]
fn decimal_sub(a: i64, b: i64, scale: u32) -> (difference: i128)
    requires
        scale <= 28,
    ensures
        difference == a - b,
{
    (Decimal::new(a, scale) - Decimal::new(b, scale)).mantissa()
}

/// Order of two fixed-point numbers of one scale, decided by `rust_decimal`.
///
/// Calls `Decimal::new` on each operand and `PartialOrd::ge` on the two
/// decimals. The contract claims that decimals of equal scale are ordered as
/// their signed mantissas are. `Decimal::new` panics on a scale above 28,
/// which the precondition excludes.
#[verifier::external_body]
fn decimal_ge(a: i64, b: i64, scale: u32) -> (at_least: bool)
    requires
        scale <= 28,
    ensures
        at_least == (a >= b),
{
    Decimal::new(a, scale) >= Decimal::new(b, scale)
}

/// `pow10` on the exponents up to five.
proof fn lemma_pow10_small()
    ensures
        pow10(0) == 1,
        pow10(1) == 10,
        pow10(2) == 100,
        pow10(3) == 1_000,
        pow10(4) == 10_000,
        pow10(5) == 100_000,
{
    reveal_with_fuel(pow10, 6);
}

/// From the fifth digit on, every power of ten is a multiple of 100 000.
proof fn lemma_pow10_from_five(e: nat)
    requires
        e >= 5,
    ensures
        pow10(e) == 100_000 * pow10((e - 5) as nat),
        pow10((e - 5) as nat) >= 1,
    decreases e,
{
    lemma_pow10_small();
    if e > 5 {
        lemma_pow10_from_five((e - 1) as nat);
        assert(pow10(e) == 10 * pow10((e - 1) as nat));
        assert(pow10((e - 5) as nat) == 10 * pow10((e - 6) as nat));
    }
}

/// A mantissa with more than four fractional digits denotes a count of
/// ten-thousandths only if its last digit is zero.
proof fn lemma_denotes_last_digit(units: int, mantissa: int, scale: nat)
    requires
        scale > FRACTION_DIGITS,
        denotes(units, mantissa, scale),
    ensures
        mantissa % 10 == 0,
{
    lemma_pow10_small();
    lemma_pow10_from_five(scale);
    let rest = pow10((scale - 5) as nat);
    assert(units * (100_000 * rest) == mantissa * 10_000);
    assert(mantissa == 10 * (units * rest)) by (nonlinear_arith)
        requires
            units * (100_000 * rest) == mantissa * 10_000,
    ;
}

/// Dropping a final zero digit leaves the number unchanged.
proof fn lemma_denotes_shift(units: int, mantissa: int, scale: nat)
    ensures
        denotes(units, 10 * mantissa, scale + 1) == denotes(units, mantissa, scale),
{
    let p = pow10(scale);
    let q = pow10(FRACTION_DIGITS as nat);
    assert(pow10(scale + 1) == 10 * p);
    assert((units * (10 * p) == (10 * mantissa) * q) == (units * p == mantissa * q))
        by (nonlinear_arith);
}

impl Amount {
    /// The amount of `units` ten-thousandths.
    pub fn from_units(units: i64) -> (amount: Amount)
        ensures
            amount@ == units,
    {
        Amount { units }
    }

    /// The amount zero.
    pub fn zero() -> (amount: Amount)
        ensures
            amount@ == 0,
    {
        Amount { units: 0 }
    }

    /// This amount in ten-thousandths.
    pub fn units(&self) -> (units: i64)
        ensures
            units == self@,
    {
        self.units
    }

    /// Every amount holds a count that an `i64` holds.
    pub proof fn lemma_representable(self)
        ensures
            representable(self@),
    {
    }

    /// The amount that is `mantissa` divided by ten to the power `scale`, if
    /// that number is a whole count of ten-thousandths that an `i64` holds;
    /// `None` if it is not.
    pub fn from_scaled(mantissa: i128, scale: u32) -> (amount: Option<Amount>)
        ensures
            match amount {
                Some(a) => denotes(a@, mantissa as int, scale as nat),
                None => forall|units: int|
                    representable(units) ==> !#[trigger] denotes(
                        units,
                        mantissa as int,
                        scale as nat,
                    ),
            },
    {
        if mantissa == 0 {
            proof {
                let p = pow10(scale as nat);
                let q = pow10(FRACTION_DIGITS as nat);
                assert(0 * p == 0 * q) by (nonlinear_arith);
            }
            return Some(Amount { units: 0 });
        }
        let mut m: i128 = mantissa;
        let mut s: u32 = scale;
        while s > FRACTION_DIGITS
            invariant
                m != 0,
                forall|units: int|
                    denotes(units, m as int, s as nat) == denotes(
                        units,
                        mantissa as int,
                        scale as nat,
                    ),
            decreases s,
        {
            if m % 10 != 0 {
                proof {
                    assert forall|units: int|
                        !denotes(units, mantissa as int, scale as nat) by {
                        if denotes(units, m as int, s as nat) {
                            lemma_denotes_last_digit(units, m as int, s as nat);
                        }
                    }
                }
                return None;
            }
            proof {
                let quotient = m as int / 10;
                assert forall|units: int|
                    denotes(units, quotient, (s - 1) as nat) == denotes(
                        units,
                        mantissa as int,
                        scale as nat,
                    ) by {
                    lemma_denotes_shift(units, quotient, (s - 1) as nat);
                }
            }
            m = m / 10;
            s = s - 1;
        }
        proof {
            lemma_pow10_small();
        }
        if m < -9_223_372_036_854_775_808i128 || m > 9_223_372_036_854_775_807i128 {
            proof {
                assert forall|units: int| representable(units) implies !denotes(
                    units,
                    m as int,
                    s as nat,
                ) by {
                    if denotes(units, m as int, s as nat) {
                        assert(units * pow10(s as nat) == m * 10_000);
                    }
                }
            }
            return None;
        }
        let factor: i128 = if s == 0 {
            10_000
        } else if s == 1 {
            1_000
        } else if s == 2 {
            100
        } else if s == 3 {
            10
        } else {
            1
        };
        let scaled: i128 = m * factor;
        proof {
            assert forall|units: int| denotes(units, m as int, s as nat) == (units == scaled) by {
                assert(denotes(units, m as int, s as nat) == (units * pow10(s as nat) == m
                    * 10_000));
            }
        }
        if scaled < -9_223_372_036_854_775_808i128 || scaled > 9_223_372_036_854_775_807i128 {
            None
        } else {
            Some(Amount { units: scaled as i64 })
        }
    }

    /// `self + other`, if an amount can hold it; `None` if it cannot.
    pub fn checked_add(self, other: Amount) -> (sum: Option<Amount>)
        ensures
            sum.is_some() == representable(self@ + other@),
            sum.is_some() ==> sum.unwrap()@ == self@ + other@,
    {
        let total: i128 = decimal_add(self.units, other.units, FRACTION_DIGITS);
        if total < -9_223_372_036_854_775_808i128 || total > 9_223_372_036_854_775_807i128 {
            None
        } else {
            Some(Amount { units: total as i64 })
        }
    }

    /// `self - other`, if an amount can hold it; `None` if it cannot.
    pub fn checked_sub(self, other: Amount) -> (difference: Option<Amount>)
        ensures
            difference.is_some() == representable(self@ - other@),
            difference.is_some() ==> difference.unwrap()@ == self@ - other@,
    {
        let rest: i128 = decimal_sub(self.units, other.units, FRACTION_DIGITS);
        if rest < -9_223_372_036_854_775_808i128 || rest > 9_223_372_036_854_775_807i128 {
            None
        } else {
            Some(Amount { units: rest as i64 })
        }
    }

    /// Whether `self` is `other` or more.
    pub fn is_at_least(self, other: Amount) -> (at_least: bool)
        ensures
            at_least == (self@ >= other@),
    {
        decimal_ge(self.units, other.units, FRACTION_DIGITS)
    }
}

impl Default for Amount {
    /// The amount zero.
    fn default() -> (amount: Amount)
        ensures
            amount@ == 0,
    {
        Amount { units: 0 }
    }
}

} // verus!
