//! A decimal number held as a signed mantissa and a power-of-ten scale.
//!
//! The value of a [`Decimal`] is `mantissa / 10^scale`. The representation is
//! the one of `rust_decimal`: a mantissa of at most 96 bits and a scale of at
//! most 28. Arithmetic is carried out by `rust_decimal`; what it returns is
//! named here by the functions `decimal_sum`, `decimal_difference`,
//! `decimal_product` and `decimal_quotient`.

use vstd::arithmetic::power::pow;
use vstd::prelude::*;

verus! {

/// The largest scale a [`Decimal`] can have.
pub const MAX_SCALE: u32 = 28;

/// The largest magnitude a mantissa can have: `2^96 - 1`.
pub const MAX_MANTISSA: i128 = 0x0000_0000_FFFF_FFFF_FFFF_FFFF_FFFF_FFFF;

/// A decimal number: `mantissa / 10^scale`.
#[derive(Clone, Copy, Debug)]
pub struct Decimal {
    mantissa: i128,
    scale: u32,
}

/// Whether a mantissa and a scale fit the representation.
pub open spec fn representable(mantissa: int, scale: nat) -> bool {
    &&& scale <= MAX_SCALE
    &&& -MAX_MANTISSA <= mantissa <= MAX_MANTISSA
}

/// Whether two decimals, given as mantissa and scale, denote the same number.
pub open spec fn same_value(a: (int, nat), b: (int, nat)) -> bool {
    a.0 * pow(10, b.1) == b.0 * pow(10, a.1)
}

/// Whether the first decimal denotes a smaller number than the second.
pub open spec fn less_value(a: (int, nat), b: (int, nat)) -> bool {
    a.0 * pow(10, b.1) < b.0 * pow(10, a.1)
}

/// What `rust_decimal` returns for the checked sum of two decimals.
pub uninterp spec fn decimal_sum(a: (int, nat), b: (int, nat)) -> Option<(int, nat)>;

/// What `rust_decimal` returns for the checked difference of two decimals.
pub uninterp spec fn decimal_difference(a: (int, nat), b: (int, nat)) -> Option<(int, nat)>;

/// What `rust_decimal` returns for the checked product of two decimals.
pub uninterp spec fn decimal_product(a: (int, nat), b: (int, nat)) -> Option<(int, nat)>;

/// What `rust_decimal` returns for the checked quotient of two decimals.
pub uninterp spec fn decimal_quotient(a: (int, nat), b: (int, nat)) -> Option<(int, nat)>;

/// The sum where it can be represented, else the first operand.
pub open spec fn value_add(a: (int, nat), b: (int, nat)) -> (int, nat) {
    match decimal_sum(a, b) {
        Some(v) => v,
        None => a,
    }
}

/// The difference where it can be represented, else the first operand.
pub open spec fn value_sub(a: (int, nat), b: (int, nat)) -> (int, nat) {
    match decimal_difference(a, b) {
        Some(v) => v,
        None => a,
    }
}

/// The product where it can be represented, else the first operand.
pub open spec fn value_mul(a: (int, nat), b: (int, nat)) -> (int, nat) {
    match decimal_product(a, b) {
        Some(v) => v,
        None => a,
    }
}

/// The quotient where there is one that can be represented, else the first
/// operand.
pub open spec fn value_div(a: (int, nat), b: (int, nat)) -> (int, nat) {
    match decimal_quotient(a, b) {
        Some(v) => v,
        None => a,
    }
}

/// The mantissa and scale of an optional decimal.
pub open spec fn option_view(d: Option<Decimal>) -> Option<(int, nat)> {
    match d {
        Some(d) => Some(d@),
        None => None,
    }
}

impl View for Decimal {
    type V = (int, nat);

    closed spec fn view(&self) -> (int, nat) {
        (self.mantissa as int, self.scale as nat)
    }
}

impl Decimal {
    #[verifier::type_invariant]
    closed spec fn well_formed(&self) -> bool {
        representable(self.mantissa as int, self.scale as nat)
    }

    /// The decimal `num / 10^scale`.
    pub fn new(num: i64, scale: u32) -> (d: Decimal)
        requires
            scale <= MAX_SCALE,
        ensures
            d@ == (num as int, scale as nat),
    {
        Decimal { mantissa: num as i128, scale }
    }

    /// The decimal `num / 10^scale`, or `None` where the scale is too large.
    pub fn try_new(num: i64, scale: u32) -> (d: Option<Decimal>)
        ensures
            scale <= MAX_SCALE ==> option_view(d) == Some((num as int, scale as nat)),
            scale > MAX_SCALE ==> d is None,
    {
        if scale <= MAX_SCALE {
            Some(Decimal { mantissa: num as i128, scale })
        } else {
            None
        }
    }

    /// The decimal `mantissa / 10^scale`, or `None` where the two do not fit
    /// the representation.
    pub fn try_from_i128_with_scale(mantissa: i128, scale: u32) -> (d: Option<Decimal>)
        ensures
            representable(mantissa as int, scale as nat) ==> option_view(d) == Some(
                (mantissa as int, scale as nat),
            ),
            !representable(mantissa as int, scale as nat) ==> d is None,
    {
        if scale <= MAX_SCALE && -MAX_MANTISSA <= mantissa && mantissa <= MAX_MANTISSA {
            Some(Decimal { mantissa, scale })
        } else {
            None
        }
    }

    /// Zero, with scale 0.
    pub fn zero() -> (d: Decimal)
        ensures
            d@ == (0int, 0nat),
    {
        Decimal { mantissa: 0, scale: 0 }
    }

    /// The mantissa.
    pub fn mantissa(&self) -> (m: i128)
        ensures
            m == self@.0,
            -MAX_MANTISSA <= m <= MAX_MANTISSA,
    {
        proof {
            use_type_invariant(self);
        }
        self.mantissa
    }

    /// The scale.
    pub fn scale(&self) -> (s: u32)
        ensures
            s == self@.1,
            s <= MAX_SCALE,
    {
        proof {
            use_type_invariant(self);
        }
        self.scale
    }

    /// Whether the number is zero.
    pub fn is_zero(&self) -> (z: bool)
        ensures
            z == (self@.0 == 0),
    {
        self.mantissa == 0
    }

    /// Whether the number is negative.
    pub fn is_negative(&self) -> (n: bool)
        ensures
            n == (self@.0 < 0),
    {
        self.mantissa < 0
    }

    /// The sum, or `None` where it cannot be represented.
    pub fn checked_add(self, other: Decimal) -> (r: Option<Decimal>)
        ensures
            option_view(r) == decimal_sum(self@, other@),
    {
        outside_checked_add(self, other)
    }

    /// The difference, or `None` where it cannot be represented.
    pub fn checked_sub(self, other: Decimal) -> (r: Option<Decimal>)
        ensures
            option_view(r) == decimal_difference(self@, other@),
    {
        outside_checked_sub(self, other)
    }

    /// The product, or `None` where it cannot be represented.
    pub fn checked_mul(self, other: Decimal) -> (r: Option<Decimal>)
        ensures
            option_view(r) == decimal_product(self@, other@),
    {
        outside_checked_mul(self, other)
    }

    /// The quotient, or `None` where it cannot be represented or the divisor is
    /// zero.
    pub fn checked_div(self, other: Decimal) -> (r: Option<Decimal>)
        ensures
            option_view(r) == decimal_quotient(self@, other@),
    {
        outside_checked_div(self, other)
    }

    /// The sum where it can be represented, else `self`.
    pub fn add(self, other: Decimal) -> (r: Decimal)
        ensures
            r@ == value_add(self@, other@),
    {
        match outside_checked_add(self, other) {
            Some(d) => d,
            None => self,
        }
    }

    /// The difference where it can be represented, else `self`.
    pub fn sub(self, other: Decimal) -> (r: Decimal)
        ensures
            r@ == value_sub(self@, other@),
    {
        match outside_checked_sub(self, other) {
            Some(d) => d,
            None => self,
        }
    }

    /// The product where it can be represented, else `self`.
    pub fn mul(self, other: Decimal) -> (r: Decimal)
        ensures
            r@ == value_mul(self@, other@),
    {
        match outside_checked_mul(self, other) {
            Some(d) => d,
            None => self,
        }
    }

    /// The quotient where there is one that can be represented, else `self`.
    pub fn div(self, other: Decimal) -> (r: Decimal)
        ensures
            r@ == value_div(self@, other@),
    {
        match outside_checked_div(self, other) {
            Some(d) => d,
            None => self,
        }
    }

    /// Whether `self` denotes a smaller number than `other`.
    pub fn less_than(&self, other: &Decimal) -> (r: bool)
        ensures
            r == less_value(self@, other@),
    {
        outside_less_than(*self, *other)
    }
}

/// `rust_decimal::Decimal::checked_add`. The operands are built with
/// `from_i128_with_scale`, which takes every mantissa and scale that a
/// [`Decimal`] holds; the result is read with `mantissa` and `scale`, fits the
/// representation, and is named `decimal_sum`, a function of the operands'
/// mantissas and scales.
#[verifier::external_body]
fn outside_checked_add(a: Decimal, b: Decimal) -> (r: Option<Decimal>)
    ensures
        option_view(r) == decimal_sum(a@, b@),
        r matches Some(d) ==> representable(d@.0, d@.1),
{
    let x = rust_decimal::Decimal::from_i128_with_scale(a.mantissa, a.scale);
    let y = rust_decimal::Decimal::from_i128_with_scale(b.mantissa, b.scale);
    match x.checked_add(y) {
        Some(d) => Some(Decimal { mantissa: d.mantissa(), scale: d.scale() }),
        None => None,
    }
}

/// `rust_decimal::Decimal::checked_sub`. The operands are built with
/// `from_i128_with_scale`, which takes every mantissa and scale that a
/// [`Decimal`] holds; the result is read with `mantissa` and `scale`, fits the
/// representation, and is named `decimal_difference`, a function of the operands'
/// mantissas and scales.
#[verifier::external_body]
fn outside_checked_sub(a: Decimal, b: Decimal) -> (r: Option<Decimal>)
    ensures
        option_view(r) == decimal_difference(a@, b@),
        r matches Some(d) ==> representable(d@.0, d@.1),
{
    let x = rust_decimal::Decimal::from_i128_with_scale(a.mantissa, a.scale);
    let y = rust_decimal::Decimal::from_i128_with_scale(b.mantissa, b.scale);
    match x.checked_sub(y) {
        Some(d) => Some(Decimal { mantissa: d.mantissa(), scale: d.scale() }),
        None => None,
    }
}

/// `rust_decimal::Decimal::checked_mul`. The operands are built with
/// `from_i128_with_scale`, which takes every mantissa and scale that a
/// [`Decimal`] holds; the result is read with `mantissa` and `scale`, fits the
/// representation, and is named `decimal_product`, a function of the operands'
/// mantissas and scales.
#[verifier::external_body]
fn outside_checked_mul(a: Decimal, b: Decimal) -> (r: Option<Decimal>)
    ensures
        option_view(r) == decimal_product(a@, b@),
        r matches Some(d) ==> representable(d@.0, d@.1),
{
    let x = rust_decimal::Decimal::from_i128_with_scale(a.mantissa, a.scale);
    let y = rust_decimal::Decimal::from_i128_with_scale(b.mantissa, b.scale);
    match x.checked_mul(y) {
        Some(d) => Some(Decimal { mantissa: d.mantissa(), scale: d.scale() }),
        None => None,
    }
}

/// `rust_decimal::Decimal::checked_div`. The operands are built with
/// `from_i128_with_scale`, which takes every mantissa and scale that a
/// [`Decimal`] holds; the result is read with `mantissa` and `scale`, fits the
/// representation, and is named `decimal_quotient`, a function of the operands'
/// mantissas and scales.
#[verifier::external_body]
fn outside_checked_div(a: Decimal, b: Decimal) -> (r: Option<Decimal>)
    ensures
        option_view(r) == decimal_quotient(a@, b@),
        r matches Some(d) ==> representable(d@.0, d@.1),
{
    let x = rust_decimal::Decimal::from_i128_with_scale(a.mantissa, a.scale);
    let y = rust_decimal::Decimal::from_i128_with_scale(b.mantissa, b.scale);
    match x.checked_div(y) {
        Some(d) => Some(Decimal { mantissa: d.mantissa(), scale: d.scale() }),
        None => None,
    }
}

/// `rust_decimal::Decimal`'s `==`, on operands built with
/// `from_i128_with_scale`: true exactly when the two denote the same number,
/// whatever their scales.
#[verifier::external_body]
fn outside_equal(a: Decimal, b: Decimal) -> (r: bool)
    ensures
        r == same_value(a@, b@),
{
    let x = rust_decimal::Decimal::from_i128_with_scale(a.mantissa, a.scale);
    let y = rust_decimal::Decimal::from_i128_with_scale(b.mantissa, b.scale);
    x == y
}

/// `rust_decimal::Decimal`'s `<`, on operands built with
/// `from_i128_with_scale`: true exactly when the first denotes a smaller number
/// than the second, whatever their scales.
#[verifier::external_body]
fn outside_less_than(a: Decimal, b: Decimal) -> (r: bool)
    ensures
        r == less_value(a@, b@),
{
    let x = rust_decimal::Decimal::from_i128_with_scale(a.mantissa, a.scale);
    let y = rust_decimal::Decimal::from_i128_with_scale(b.mantissa, b.scale);
    x < y
}

impl PartialEq for Decimal {
    fn eq(&self, other: &Decimal) -> (r: bool) {
        outside_equal(*self, *other)
    }
}

impl Eq for Decimal {

}

impl vstd::std_specs::cmp::PartialEqSpecImpl for Decimal {
    open spec fn obeys_eq_spec() -> bool {
        true
    }

    open spec fn eq_spec(&self, other: &Decimal) -> bool {
        same_value(self@, other@)
    }
}

} // verus!
