//! A decimal number held as plain parts, with the arithmetic of the
//! `rust_decimal` crate behind trusted wrappers.
//!
//! A value is `num / 10^scale`, with `num` a signed count of units that fits
//! in 96 bits and `scale` at most 28 — exactly the range `rust_decimal`'s
//! `Decimal` covers. Every arithmetic operation converts the parts into a
//! `Decimal`, calls the crate, and converts the parts of the answer back.

use rust_decimal::MathematicalOps;
use vstd::prelude::*;

verus! {

/// Largest unit count a 96-bit mantissa can hold.
pub const MAX_UNITS: i128 = 79228162514264337593543950335;

/// Largest base-ten scale the decimal representation supports.
pub const MAX_SCALE: u32 = 28;

/// Mathematical image of a decimal number: `num` units at base-ten `scale`,
/// denoting the rational number `num / 10^scale`.
pub ghost struct DecV {
    pub num: int,
    pub scale: nat,
}

/// The additive identity, `0` at scale `0`.
pub open spec fn zero_v() -> DecV {
    DecV { num: 0, scale: 0 }
}

/// The multiplicative identity, `1` at scale `0`.
pub open spec fn one_v() -> DecV {
    DecV { num: 1, scale: 0 }
}

/// The additive inverse: the unit count changes sign, the scale stays.
pub open spec fn neg_v(v: DecV) -> DecV {
    DecV { num: -v.num, scale: v.scale }
}

/// What `rust_decimal`'s checked addition returns on the given values;
/// `None` stands for overflow.
pub uninterp spec fn add_of(a: DecV, b: DecV) -> Option<DecV>;

/// What `rust_decimal`'s checked subtraction returns on the given values;
/// `None` stands for overflow.
pub uninterp spec fn sub_of(a: DecV, b: DecV) -> Option<DecV>;

/// What `rust_decimal`'s checked multiplication returns on the given values;
/// `None` stands for overflow.
pub uninterp spec fn mul_of(a: DecV, b: DecV) -> Option<DecV>;

/// What `rust_decimal`'s checked division returns on the given values;
/// `None` stands for overflow or a zero divisor.
pub uninterp spec fn div_of(a: DecV, b: DecV) -> Option<DecV>;

/// What `rust_decimal`'s checked power returns on the given base and
/// exponent; `None` stands for overflow.
pub uninterp spec fn pow_of(base: DecV, exp: DecV) -> Option<DecV>;

/// A decimal number as plain parts: `num` units at base-ten `scale`,
/// denoting `num / 10^scale`.
#[derive(Clone, Copy, Debug)]
pub struct Dec {
    pub num: i128,
    pub scale: u32,
}

impl View for Dec {
    type V = DecV;

    open spec fn view(&self) -> DecV {
        DecV { num: self.num as int, scale: self.scale as nat }
    }
}

impl Dec {
    /// The parts stay within what a 96-bit mantissa at scale at most 28 can
    /// hold, so they always convert into a `rust_decimal` value.
    pub open spec fn wf(self) -> bool {
        &&& -(MAX_UNITS as int) <= self.num as int
        &&& self.num as int <= MAX_UNITS as int
        &&& self.scale <= MAX_SCALE
    }

    /// Builds the decimal `num / 10^scale`, or `None` where the parts are
    /// out of range.
    pub fn new(num: i128, scale: u32) -> (r: Option<Dec>)
        ensures
            r is Some <==> -MAX_UNITS <= num <= MAX_UNITS && scale <= MAX_SCALE,
            r matches Some(d) ==> d.wf() && d@.num == num as int && d@.scale == scale as nat,
    {
        if -MAX_UNITS <= num && num <= MAX_UNITS && scale <= MAX_SCALE {
            Some(Dec { num, scale })
        } else {
            None
        }
    }

    /// The additive identity.
    pub fn zero() -> (r: Dec)
        ensures
            r.wf(),
            r@ == zero_v(),
    {
        Dec { num: 0, scale: 0 }
    }

    /// The multiplicative identity.
    pub fn one() -> (r: Dec)
        ensures
            r.wf(),
            r@ == one_v(),
    {
        Dec { num: 1, scale: 0 }
    }

    /// Whether the value is zero; a zero unit count denotes zero at any
    /// scale.
    pub fn is_zero(&self) -> (r: bool)
        ensures
            r <==> self@.num == 0,
    {
        self.num == 0
    }

    /// The additive inverse: the unit count changes sign, the scale stays.
    pub fn neg(&self) -> (r: Dec)
        requires
            self.wf(),
        ensures
            r.wf(),
            r@ == neg_v(self@),
    {
        Dec { num: -self.num, scale: self.scale }
    }

    /// Relies on `rust_decimal`'s `Decimal::checked_add`: the sum of the two
    /// values, `None` exactly on overflow. The parts move through
    /// `Decimal::from_i128_with_scale`, `Decimal::mantissa` and
    /// `Decimal::scale`.
    #[verifier::external_body]
    pub(crate) fn checked_add(&self, other: &Dec) -> (r: Option<Dec>)
        requires
            self.wf(),
            other.wf(),
        ensures
            r matches Some(d) ==> d.wf() && add_of(self@, other@) == Some(d@),
            r is None ==> add_of(self@, other@) is None,
    {
        let a = rust_decimal::Decimal::from_i128_with_scale(self.num, self.scale);
        let b = rust_decimal::Decimal::from_i128_with_scale(other.num, other.scale);
        match a.checked_add(b) {
            Some(d) => Some(Dec { num: d.mantissa(), scale: d.scale() }),
            None => None,
        }
    }

    /// Relies on `rust_decimal`'s `Decimal::checked_sub`: the difference of
    /// the two values, `None` exactly on overflow. The parts move through
    /// `Decimal::from_i128_with_scale`, `Decimal::mantissa` and
    /// `Decimal::scale`.
    #[verifier::external_body]
    pub(crate) fn checked_sub(&self, other: &Dec) -> (r: Option<Dec>)
        requires
            self.wf(),
            other.wf(),
        ensures
            r matches Some(d) ==> d.wf() && sub_of(self@, other@) == Some(d@),
            r is None ==> sub_of(self@, other@) is None,
    {
        let a = rust_decimal::Decimal::from_i128_with_scale(self.num, self.scale);
        let b = rust_decimal::Decimal::from_i128_with_scale(other.num, other.scale);
        match a.checked_sub(b) {
            Some(d) => Some(Dec { num: d.mantissa(), scale: d.scale() }),
            None => None,
        }
    }

    /// Relies on `rust_decimal`'s `Decimal::checked_mul`: the product of the
    /// two values, `None` exactly on overflow. The parts move through
    /// `Decimal::from_i128_with_scale`, `Decimal::mantissa` and
    /// `Decimal::scale`.
    #[verifier::external_body]
    pub(crate) fn checked_mul(&self, other: &Dec) -> (r: Option<Dec>)
        requires
            self.wf(),
            other.wf(),
        ensures
            r matches Some(d) ==> d.wf() && mul_of(self@, other@) == Some(d@),
            r is None ==> mul_of(self@, other@) is None,
    {
        let a = rust_decimal::Decimal::from_i128_with_scale(self.num, self.scale);
        let b = rust_decimal::Decimal::from_i128_with_scale(other.num, other.scale);
        match a.checked_mul(b) {
            Some(d) => Some(Dec { num: d.mantissa(), scale: d.scale() }),
            None => None,
        }
    }

    /// Relies on `rust_decimal`'s `Decimal::checked_div`: the quotient of the
    /// two values, `None` exactly on overflow or a zero divisor. The parts
    /// move through `Decimal::from_i128_with_scale`, `Decimal::mantissa` and
    /// `Decimal::scale`.
    #[verifier::external_body]
    pub(crate) fn checked_div(&self, other: &Dec) -> (r: Option<Dec>)
        requires
            self.wf(),
            other.wf(),
        ensures
            r matches Some(d) ==> d.wf() && div_of(self@, other@) == Some(d@),
            r is None ==> div_of(self@, other@) is None,
    {
        let a = rust_decimal::Decimal::from_i128_with_scale(self.num, self.scale);
        let b = rust_decimal::Decimal::from_i128_with_scale(other.num, other.scale);
        match a.checked_div(b) {
            Some(d) => Some(Dec { num: d.mantissa(), scale: d.scale() }),
            None => None,
        }
    }

    /// Relies on `rust_decimal`'s `Decimal::checked_powd` (behind the crate's
    /// `maths` feature): the value raised to the decimal exponent, `None` on
    /// overflow; a whole exponent goes through repeated multiplication, a
    /// fractional one through the crate's exp/ln approximation of the
    /// magnitude. The parts move through `Decimal::from_i128_with_scale`,
    /// `Decimal::mantissa` and `Decimal::scale`.
    #[verifier::external_body]
    pub(crate) fn checked_powd(&self, exp: &Dec) -> (r: Option<Dec>)
        requires
            self.wf(),
            exp.wf(),
        ensures
            r matches Some(d) ==> d.wf() && pow_of(self@, exp@) == Some(d@),
            r is None ==> pow_of(self@, exp@) is None,
    {
        let a = rust_decimal::Decimal::from_i128_with_scale(self.num, self.scale);
        let b = rust_decimal::Decimal::from_i128_with_scale(exp.num, exp.scale);
        match a.checked_powd(b) {
            Some(d) => Some(Dec { num: d.mantissa(), scale: d.scale() }),
            None => None,
        }
    }
}

} // verus!
