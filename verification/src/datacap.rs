//! Data cap and token quantities, and the two conversions between them.

use crate::bigint::{
    decimal, difference, product, quotient, sum, to_decimal, truncated_quotient, BigInt,
};
use std::cmp::Ordering;
use std::ops::{Add, Sub};
use vstd::prelude::*;

verus! {

/// How many indivisible token units stand for one byte of data cap: ten to the eighteenth.
pub const TOKEN_PRECISION: i64 = 1_000_000_000_000_000_000;

/// A quantity of fungible tokens, counted in indivisible units.
#[derive(Debug)]
pub struct TokenAmount {
    atto: BigInt,
}

impl View for TokenAmount {
    type V = int;

    closed spec fn view(&self) -> int {
        self.atto@
    }
}

impl Clone for TokenAmount {
    fn clone(&self) -> (r: Self)
        ensures
            r@ == self@,
    {
        TokenAmount { atto: self.atto.clone() }
    }
}

impl TokenAmount {
    /// The token quantity of so many indivisible units.
    pub fn from_atto(atto: BigInt) -> (r: TokenAmount)
        ensures
            r@ == atto@,
    {
        TokenAmount { atto }
    }

    /// The number of indivisible units.
    pub fn atto(&self) -> (r: &BigInt)
        ensures
            r@ == self@,
    {
        &self.atto
    }

    pub fn is_zero(&self) -> (r: bool)
        ensures
            r == (self@ == 0),
    {
        self.atto.is_zero()
    }
}

impl PartialEq for TokenAmount {
    fn eq(&self, other: &TokenAmount) -> (r: bool) {
        self.atto == other.atto
    }
}

impl vstd::std_specs::cmp::PartialEqSpecImpl for TokenAmount {
    open spec fn obeys_eq_spec() -> bool {
        true
    }

    open spec fn eq_spec(&self, other: &TokenAmount) -> bool {
        self@ == other@
    }
}

impl Eq for TokenAmount {

}

/// An allowance in bytes.
///
/// A type of its own, so that a data cap is never taken for a token quantity: the only
/// ways from one to the other are [`DataCap::from_tokens`] and [`DataCap::to_tokens`].
/// The number may be negative; nothing here clamps it.
#[derive(Debug)]
pub struct DataCap(pub(crate) BigInt);

impl View for DataCap {
    type V = int;

    closed spec fn view(&self) -> int {
        self.0@
    }
}

impl Clone for DataCap {
    fn clone(&self) -> (r: Self)
        ensures
            r@ == self@,
    {
        DataCap(self.0.clone())
    }
}

impl DataCap {
    /// The number of bytes as a plain integer.
    pub fn as_power(&self) -> (r: &BigInt)
        ensures
            r@ == self@,
    {
        &self.0
    }

    pub fn zero() -> (r: DataCap)
        ensures
            r@ == 0,
    {
        DataCap(BigInt::zero())
    }

    pub fn is_zero(&self) -> (r: bool)
        ensures
            r == (self@ == 0),
    {
        self.0.is_zero()
    }

    pub fn is_positive(&self) -> (r: bool)
        ensures
            r == (self@ > 0),
    {
        self.0.is_positive()
    }

    pub fn is_negative(&self) -> (r: bool)
        ensures
            r == (self@ < 0),
    {
        self.0.is_negative()
    }

    /// The data cap that a token quantity is worth: the quantity divided by the token
    /// precision. What does not make a whole byte is dropped, toward zero.
    pub fn from_tokens(t: &TokenAmount) -> (r: DataCap)
        ensures
            r@ == truncated_quotient(t@, TOKEN_PRECISION as int),
    {
        DataCap(quotient(t.atto(), TOKEN_PRECISION))
    }

    /// The token quantity that stands for this data cap: the number of bytes multiplied by
    /// the token precision.
    pub fn to_tokens(&self) -> (r: TokenAmount)
        ensures
            r@ == self@ * TOKEN_PRECISION,
    {
        TokenAmount::from_atto(product(&self.0, TOKEN_PRECISION))
    }

}

impl<'a> Sub<&'a DataCap> for DataCap {
    type Output = DataCap;

    fn sub(self, other: &'a DataCap) -> (r: DataCap)
        ensures
            r@ == self@ - other@,
    {
        DataCap(difference(&self.0, &other.0))
    }
}

/// What `-` returns is said by `sub` itself, over the numbers.
impl<'a> vstd::std_specs::ops::SubSpecImpl<&'a DataCap> for DataCap {
    open spec fn obeys_sub_spec() -> bool {
        false
    }

    open spec fn sub_req(self, other: &'a DataCap) -> bool {
        true
    }

    open spec fn sub_spec(self, other: &'a DataCap) -> DataCap {
        choose|cap: DataCap| cap@ == self@ - other@
    }
}

impl<'a> Add<&'a DataCap> for DataCap {
    type Output = DataCap;

    fn add(self, other: &'a DataCap) -> (r: DataCap)
        ensures
            r@ == self@ + other@,
    {
        DataCap(sum(&self.0, &other.0))
    }
}

/// What `+` returns is said by `add` itself, over the numbers.
impl<'a> vstd::std_specs::ops::AddSpecImpl<&'a DataCap> for DataCap {
    open spec fn obeys_add_spec() -> bool {
        false
    }

    open spec fn add_req(self, other: &'a DataCap) -> bool {
        true
    }

    open spec fn add_spec(self, other: &'a DataCap) -> DataCap {
        choose|cap: DataCap| cap@ == self@ + other@
    }
}

impl<'a, 'b> Add<&'a DataCap> for &'b DataCap {
    type Output = DataCap;

    fn add(self, other: &'a DataCap) -> (r: DataCap)
        ensures
            r@ == self@ + other@,
    {
        DataCap(sum(&self.0, &other.0))
    }
}

/// What `+` returns is said by `add` itself, over the numbers.
impl<'a, 'b> vstd::std_specs::ops::AddSpecImpl<&'a DataCap> for &'b DataCap {
    open spec fn obeys_add_spec() -> bool {
        false
    }

    open spec fn add_req(self, other: &'a DataCap) -> bool {
        true
    }

    open spec fn add_spec(self, other: &'a DataCap) -> DataCap {
        choose|cap: DataCap| cap@ == self@ + other@
    }
}

impl PartialEq for DataCap {
    fn eq(&self, other: &DataCap) -> (r: bool) {
        self.0 == other.0
    }
}

impl vstd::std_specs::cmp::PartialEqSpecImpl for DataCap {
    open spec fn obeys_eq_spec() -> bool {
        true
    }

    open spec fn eq_spec(&self, other: &DataCap) -> bool {
        self@ == other@
    }
}

impl Eq for DataCap {

}

/// Where the first integer stands relative to the second.
pub open spec fn int_order(a: int, b: int) -> Ordering {
    if a < b {
        Ordering::Less
    } else if a == b {
        Ordering::Equal
    } else {
        Ordering::Greater
    }
}

impl PartialOrd for DataCap {
    /// Data caps are ordered as numbers of bytes.
    fn partial_cmp(&self, other: &DataCap) -> (r: Option<Ordering>) {
        let sign = self.0.sign_of_difference(&other.0);
        if sign < 0 {
            Some(Ordering::Less)
        } else if sign == 0 {
            Some(Ordering::Equal)
        } else {
            Some(Ordering::Greater)
        }
    }
}

impl vstd::std_specs::cmp::PartialOrdSpecImpl for DataCap {
    open spec fn obeys_partial_cmp_spec() -> bool {
        true
    }

    open spec fn partial_cmp_spec(&self, other: &DataCap) -> Option<Ordering> {
        Some(int_order(self@, other@))
    }
}

impl DataCap {
    /// The number of bytes in decimal digits, behind a minus sign where it is negative.
    pub fn to_string(&self) -> (r: String)
        ensures
            r@ == decimal(self@),
    {
        to_decimal(&self.0)
    }
}

impl From<BigInt> for DataCap {
    fn from(i: BigInt) -> (r: DataCap)
        ensures
            r@ == i@,
    {
        DataCap(i)
    }
}

impl vstd::std_specs::convert::FromSpecImpl<BigInt> for DataCap {
    open spec fn obeys_from_spec() -> bool {
        true
    }

    closed spec fn from_spec(i: BigInt) -> DataCap {
        DataCap(i)
    }
}

impl<'a> From<&'a BigInt> for DataCap {
    fn from(i: &'a BigInt) -> (r: DataCap)
        ensures
            r@ == i@,
    {
        DataCap(i.clone())
    }
}

/// What `from` returns for a borrowed integer is said by `from` itself, over the number.
/// Which digits hold the number is left open, so nothing is said here.
impl<'a> vstd::std_specs::convert::FromSpecImpl<&'a BigInt> for DataCap {
    open spec fn obeys_from_spec() -> bool {
        false
    }

    open spec fn from_spec(i: &'a BigInt) -> DataCap {
        choose|cap: DataCap| cap@ == i@
    }
}

impl From<i32> for DataCap {
    fn from(i: i32) -> (r: DataCap)
        ensures
            r@ == i,
    {
        DataCap(BigInt::from_i64(i as i64))
    }
}

/// What `from` returns for a machine integer is said by `from` itself, over the number.
/// Which digits hold the number is left open, so nothing is said here.
impl vstd::std_specs::convert::FromSpecImpl<i32> for DataCap {
    open spec fn obeys_from_spec() -> bool {
        false
    }

    open spec fn from_spec(i: i32) -> DataCap {
        choose|cap: DataCap| cap@ == i
    }
}

/// Going to tokens and back gives the data cap that one started from, whatever its sign:
/// [`DataCap::from_tokens`] of [`DataCap::to_tokens`] of `n` bytes is `n` bytes.
pub proof fn lemma_tokens_round_trip(n: int)
    ensures
        truncated_quotient(n * TOKEN_PRECISION, TOKEN_PRECISION as int) == n,
{
    let p = TOKEN_PRECISION as int;
    if n >= 0 {
        assert(n * p >= 0) by (nonlinear_arith)
            requires
                n >= 0,
                p > 0,
        ;
        assert((n * p) / p == n) by (nonlinear_arith)
            requires
                p > 0,
        ;
    } else {
        assert(n * p < 0) by (nonlinear_arith)
            requires
                n < 0,
                p > 0,
        ;
        assert((-(n * p)) / p == -n) by (nonlinear_arith)
            requires
                p > 0,
        ;
    }
}

} // verus!
