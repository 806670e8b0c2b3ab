//! Fixed-point decimal arithmetic.
//!
//! A [`Decimal`] is a non-negative real number stored as an unsigned 128-bit
//! raw magnitude with an implied scale factor of `10^18`: a raw magnitude `r`
//! stands for the real number `r / 10^18`. All arithmetic operates on the raw
//! magnitudes, checks for overflow, and truncates on division; an operation
//! that would leave the 128-bit range or go negative fails with
//! [`TroveError::AmountOverflow`] instead of wrapping.

use vstd::prelude::*;

use crate::error::TroveError;

verus! {

/// The scale factor: one whole unit, expressed as a raw magnitude.
pub const WAD: u128 = 1_000_000_000_000_000_000;

/// A non-negative fixed-point number with eighteen fractional decimal
/// digits, stored as a raw scaled `u128` magnitude.
#[derive(Clone, Copy, Debug, PartialEq, Eq, Structural)]
pub struct Decimal {
    raw: u128,
}

impl Decimal {
    /// The raw scaled magnitude: the mathematical model of a `Decimal`.
    pub closed spec fn spec_raw(self) -> u128 {
        self.raw
    }

    /// The `Decimal` whose raw scaled magnitude is `raw`.
    pub closed spec fn spec_from_scaled_raw(raw: u128) -> Decimal {
        Decimal { raw }
    }

    /// Reconstructs a `Decimal` from a raw scaled magnitude. Total: every
    /// 128-bit value is a valid `Decimal`.
    pub fn from_scaled_raw(raw: u128) -> (d: Decimal)
        ensures
            d == Decimal::spec_from_scaled_raw(raw),
            d.spec_raw() == raw,
    {
        Decimal { raw }
    }

    /// Returns the raw scaled magnitude for serialization. Total: never
    /// fails for any in-range value.
    pub fn to_scaled_raw(self) -> (r: u128)
        ensures
            r == self.spec_raw(),
    {
        self.raw
    }

    /// Converts a whole number of units exactly, scaling by `10^18`. The
    /// overflow check can never fire for a 64-bit input, and the contract
    /// proves as much: the result is always `Ok`.
    pub fn from_integer(v: u64) -> (r: Result<Decimal, TroveError>)
        ensures
            r matches Ok(d) && d.spec_raw() == v * WAD,
    {
        proof {
            vstd::arithmetic::mul::lemma_mul_inequality(v as int, u64::MAX as int, WAD as int);
        }
        match (v as u128).checked_mul(WAD) {
            Some(raw) => Ok(Decimal { raw }),
            None => Err(TroveError::AmountOverflow),
        }
    }

    /// Checked addition of the raw magnitudes.
    pub fn try_add(self, other: Decimal) -> (r: Result<Decimal, TroveError>)
        ensures
            self.spec_raw() + other.spec_raw() <= u128::MAX ==> (r matches Ok(d)
                && d.spec_raw() == self.spec_raw() + other.spec_raw()),
            self.spec_raw() + other.spec_raw() > u128::MAX ==> r == Err::<Decimal, TroveError>(
                TroveError::AmountOverflow,
            ),
    {
        match self.raw.checked_add(other.raw) {
            Some(raw) => Ok(Decimal { raw }),
            None => Err(TroveError::AmountOverflow),
        }
    }

    /// Checked subtraction of the raw magnitudes. A result that would be
    /// negative is rejected, since the type is unsigned.
    pub fn try_sub(self, other: Decimal) -> (r: Result<Decimal, TroveError>)
        ensures
            other.spec_raw() <= self.spec_raw() ==> (r matches Ok(d)
                && d.spec_raw() == self.spec_raw() - other.spec_raw()),
            other.spec_raw() > self.spec_raw() ==> r == Err::<Decimal, TroveError>(
                TroveError::AmountOverflow,
            ),
    {
        match self.raw.checked_sub(other.raw) {
            Some(raw) => Ok(Decimal { raw }),
            None => Err(TroveError::AmountOverflow),
        }
    }

    /// Checked fixed-point multiplication: the product of the raw magnitudes
    /// is rescaled by `10^18`, truncating toward zero.
    pub fn try_mul(self, other: Decimal) -> (r: Result<Decimal, TroveError>)
        ensures
            self.spec_raw() * other.spec_raw() <= u128::MAX ==> (r matches Ok(d)
                && d.spec_raw() == (self.spec_raw() * other.spec_raw()) / (WAD as int)),
            self.spec_raw() * other.spec_raw() > u128::MAX ==> r == Err::<Decimal, TroveError>(
                TroveError::AmountOverflow,
            ),
    {
        match self.raw.checked_mul(other.raw) {
            Some(product) => Ok(Decimal { raw: product / WAD }),
            None => Err(TroveError::AmountOverflow),
        }
    }

    /// Checked fixed-point division: the dividend's raw magnitude is scaled
    /// up by `10^18` and divided by the divisor's, truncating toward zero.
    /// Division by zero is rejected.
    pub fn try_div(self, other: Decimal) -> (r: Result<Decimal, TroveError>)
        ensures
            other.spec_raw() == 0 ==> r == Err::<Decimal, TroveError>(TroveError::AmountOverflow),
            other.spec_raw() != 0 && self.spec_raw() * WAD <= u128::MAX ==> (r matches Ok(d)
                && d.spec_raw() == (self.spec_raw() * WAD) / (other.spec_raw() as int)),
            other.spec_raw() != 0 && self.spec_raw() * WAD > u128::MAX ==> r == Err::<
                Decimal,
                TroveError,
            >(TroveError::AmountOverflow),
    {
        if other.raw == 0 {
            return Err(TroveError::AmountOverflow);
        }
        match self.raw.checked_mul(WAD) {
            Some(scaled) => Ok(Decimal { raw: scaled / other.raw }),
            None => Err(TroveError::AmountOverflow),
        }
    }
}

/// Law: reconstructing a `Decimal` from any 128-bit raw magnitude and reading
/// the magnitude back yields the original value, and the raw magnitude
/// determines the `Decimal` completely.
pub proof fn lemma_decimal_raw_round_trip(r: u128)
    ensures
        Decimal::spec_from_scaled_raw(r).spec_raw() == r,
        forall|a: Decimal, b: Decimal|
            a.spec_raw() == b.spec_raw() ==> a == b,
{
}

} // verus!
