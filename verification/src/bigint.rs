//! Arbitrary-precision signed integers.
//!
//! A [`BigInt`] keeps its value as big-endian two's-complement digits in base 256. What
//! can be read off the digits (the sign, whether the number is zero, which of two numbers
//! is the greater) is answered here and proved against [`signed_be`]; the arithmetic is
//! done by the `num-bigint` integers that `fvm_shared` re-exports, behind the trusted
//! functions at the end of this file.

use vstd::prelude::*;

verus! {

/// The integer that big-endian two's-complement digits stand for.
///
/// The leading digit counts as a signed byte; every further digit shifts what came
/// before by one base-256 place and adds itself. No digits at all stand for zero.
pub open spec fn signed_be(digits: Seq<u8>) -> int
    decreases digits.len(),
{
    if digits.len() == 0 {
        0
    } else if digits.len() == 1 {
        if digits[0] >= 128 {
            digits[0] - 256
        } else {
            digits[0] as int
        }
    } else {
        signed_be(digits.drop_last()) * 256 + digits.last()
    }
}

/// The quotient of `n` by `d`, rounded toward zero.
pub open spec fn truncated_quotient(n: int, d: int) -> int
    recommends
        d != 0,
{
    if n >= 0 {
        if d > 0 {
            n / d
        } else {
            -(n / (-d))
        }
    } else {
        if d > 0 {
            -((-n) / d)
        } else {
            (-n) / (-d)
        }
    }
}

/// The digits stand for a negative integer exactly when the leading digit has its top
/// bit set.
pub proof fn lemma_sign_is_leading_bit(digits: Seq<u8>)
    ensures
        signed_be(digits) < 0 <==> digits.len() > 0 && digits[0] >= 128,
    decreases digits.len(),
{
    if digits.len() >= 2 {
        lemma_sign_is_leading_bit(digits.drop_last());
        assert(digits.drop_last()[0] == digits[0]);
    }
}

/// The digits stand for zero exactly when every digit is zero.
pub proof fn lemma_zero_is_all_zero_digits(digits: Seq<u8>)
    ensures
        signed_be(digits) == 0 <==> forall|i: int| 0 <= i < digits.len() ==> digits[i] == 0,
    decreases digits.len(),
{
    if digits.len() >= 2 {
        let front = digits.drop_last();
        lemma_zero_is_all_zero_digits(front);
        assert forall|i: int| 0 <= i < front.len() implies front[i] == digits[i] by {}
        if signed_be(digits) == 0 {
            assert(signed_be(front) == 0 && digits.last() == 0);
            assert forall|i: int| 0 <= i < digits.len() implies digits[i] == 0 by {
                if i < front.len() {
                    assert(front[i] == 0);
                }
            }
        }
        if forall|i: int| 0 <= i < digits.len() ==> digits[i] == 0 {
            assert(digits.last() == 0);
            assert forall|i: int| 0 <= i < front.len() implies front[i] == 0 by {
                assert(digits[i] == 0);
            }
        }
    } else if digits.len() == 1 {
        if forall|i: int| 0 <= i < digits.len() ==> digits[i] == 0 {
            assert(digits[0] == 0);
        }
    }
}

/// The digit that stands in front of the digits without changing the integer that they
/// stand for: all bits set for a negative integer, none otherwise.
pub open spec fn sign_digit(digits: Seq<u8>) -> u8 {
    if digits.len() > 0 && digits[0] >= 128 {
        255
    } else {
        0
    }
}

/// The digits with the sign digit repeated in front of them until there are `len`.
pub open spec fn sign_extended(digits: Seq<u8>, len: nat) -> Seq<u8>
    recommends
        len >= digits.len(),
{
    Seq::new(
        len,
        |i: int|
            if i < len - digits.len() {
                sign_digit(digits)
            } else {
                digits[i - (len - digits.len())]
            },
    )
}

/// One sign digit in front of the digits leaves the integer as it is.
pub proof fn lemma_sign_digit_in_front(digits: Seq<u8>)
    requires
        digits.len() > 0,
    ensures
        signed_be(seq![sign_digit(digits)] + digits) == signed_be(digits),
    decreases digits.len(),
{
    let sign = seq![sign_digit(digits)];
    let longer = sign + digits;
    assert(longer.last() == digits.last());
    assert(signed_be(longer) == signed_be(longer.drop_last()) * 256 + longer.last());
    if digits.len() == 1 {
        assert(longer.drop_last() =~= sign);
        assert(sign.len() == 1 && sign[0] == sign_digit(digits));
    } else {
        let front = digits.drop_last();
        assert(front[0] == digits[0]);
        assert(longer.drop_last() =~= seq![sign_digit(front)] + front);
        lemma_sign_digit_in_front(front);
    }
}

/// Sign digits in front of the digits, however many, leave the integer as it is.
pub proof fn lemma_sign_extension(digits: Seq<u8>, len: nat)
    requires
        len >= digits.len(),
    ensures
        signed_be(sign_extended(digits, len)) == signed_be(digits),
    decreases len,
{
    let extended = sign_extended(digits, len);
    if len == digits.len() {
        assert(extended =~= digits);
    } else if digits.len() == 0 {
        lemma_zero_is_all_zero_digits(extended);
    } else {
        let shorter = sign_extended(digits, (len - 1) as nat);
        lemma_sign_extension(digits, (len - 1) as nat);
        assert(sign_digit(shorter) == sign_digit(digits));
        assert(extended =~= seq![sign_digit(shorter)] + shorter);
        lemma_sign_digit_in_front(shorter);
    }
}

/// The integer of the leading digits: with one digit more it is shifted by one place,
/// and the digit added.
pub proof fn lemma_one_more_digit(digits: Seq<u8>, n: int)
    requires
        1 <= n < digits.len(),
    ensures
        signed_be(digits.take(n + 1)) == signed_be(digits.take(n)) * 256 + digits[n],
{
    assert(digits.take(n + 1).drop_last() =~= digits.take(n));
}

/// An arbitrary-precision signed integer.
#[derive(Debug)]
pub struct BigInt {
    pub(crate) digits: Vec<u8>,
}

impl View for BigInt {
    type V = int;

    closed spec fn view(&self) -> int {
        signed_be(self.digits@)
    }
}

impl Clone for BigInt {
    fn clone(&self) -> (r: Self)
        ensures
            r@ == self@,
    {
        BigInt { digits: self.digits.clone() }
    }
}

impl BigInt {
    /// The integer zero.
    pub fn zero() -> (r: BigInt)
        ensures
            r@ == 0,
    {
        let mut digits: Vec<u8> = Vec::new();
        digits.push(0u8);
        BigInt { digits }
    }

    /// The integer that the given big-endian two's-complement digits stand for.
    pub fn from_signed_bytes_be(digits: Vec<u8>) -> (r: BigInt)
        ensures
            r@ == signed_be(digits@),
    {
        BigInt { digits }
    }

    /// Big-endian two's-complement digits that stand for this integer.
    pub fn to_signed_bytes_be(&self) -> (r: Vec<u8>)
        ensures
            signed_be(r@) == self@,
    {
        self.digits.clone()
    }

    pub fn is_zero(&self) -> (r: bool)
        ensures
            r == (self@ == 0),
    {
        let mut i: usize = 0;
        while i < self.digits.len()
            invariant
                i <= self.digits.len(),
                forall|j: int| 0 <= j < i ==> self.digits@[j] == 0,
            decreases self.digits.len() - i,
        {
            if self.digits[i] != 0 {
                proof {
                    lemma_zero_is_all_zero_digits(self.digits@);
                }
                return false;
            }
            i += 1;
        }
        proof {
            lemma_zero_is_all_zero_digits(self.digits@);
        }
        true
    }

    pub fn is_negative(&self) -> (r: bool)
        ensures
            r == (self@ < 0),
    {
        proof {
            lemma_sign_is_leading_bit(self.digits@);
        }
        self.digits.len() > 0 && self.digits[0] >= 128
    }

    pub fn is_positive(&self) -> (r: bool)
        ensures
            r == (self@ > 0),
    {
        !self.is_negative() && !self.is_zero()
    }

    /// The integer with the value of a machine integer, in eight digits.
    pub fn from_i64(value: i64) -> (r: BigInt)
        ensures
            r@ == value,
    {
        let pattern: u64 = if value >= 0 {
            value as u64
        } else {
            u64::MAX - ((-(value + 1)) as u64)
        };
        let mut digits: Vec<u8> = Vec::new();
        digits.push((pattern / 0x100_0000_0000_0000) as u8);
        digits.push((pattern / 0x1_0000_0000_0000 % 256) as u8);
        digits.push((pattern / 0x100_0000_0000 % 256) as u8);
        digits.push((pattern / 0x1_0000_0000 % 256) as u8);
        digits.push((pattern / 0x100_0000 % 256) as u8);
        digits.push((pattern / 0x1_0000 % 256) as u8);
        digits.push((pattern / 0x100 % 256) as u8);
        digits.push((pattern % 256) as u8);
        proof {
            let all = digits@;
            let offset: int = if value >= 0 {
                0
            } else {
                256
            };
            assert(all.take(8) =~= all);
            assert(signed_be(all.take(1)) == pattern / 0x100_0000_0000_0000 - offset);
            lemma_one_more_digit(all, 1);
            lemma_one_more_digit(all, 2);
            lemma_one_more_digit(all, 3);
            lemma_one_more_digit(all, 4);
            lemma_one_more_digit(all, 5);
            lemma_one_more_digit(all, 6);
            lemma_one_more_digit(all, 7);
            assert(signed_be(all.take(2)) == pattern / 0x1_0000_0000_0000 - offset * 0x100);
            assert(signed_be(all.take(3)) == pattern / 0x100_0000_0000 - offset * 0x1_0000);
            assert(signed_be(all.take(4)) == pattern / 0x1_0000_0000 - offset * 0x100_0000);
            assert(signed_be(all.take(5)) == pattern / 0x100_0000 - offset * 0x1_0000_0000);
            assert(signed_be(all.take(6)) == pattern / 0x1_0000 - offset * 0x100_0000_0000);
            assert(signed_be(all.take(7)) == pattern / 0x100 - offset * 0x1_0000_0000_0000);
            assert(signed_be(all.take(8)) == pattern - offset * 0x100_0000_0000_0000);
        }
        BigInt { digits }
    }

    /// The digit at a place once the digits are extended by their sign to `len` digits.
    fn digit_at(&self, len: usize, place: usize) -> (r: u8)
        requires
            self.digits.len() <= len,
            place < len,
        ensures
            r == sign_extended(self.digits@, len as nat)[place as int],
    {
        let missing = len - self.digits.len();
        if place < missing {
            if self.digits.len() > 0 && self.digits[0] >= 128 {
                255
            } else {
                0
            }
        } else {
            self.digits[place - missing]
        }
    }

    /// Where this integer stands relative to the other: -1 where it is the lesser, 0 where
    /// the two are the same number, 1 where it is the greater.
    ///
    /// Both are read with as many digits as the longer has. Their leading digits are
    /// compared as signed bytes; from there on the first place in which they differ
    /// decides.
    pub fn sign_of_difference(&self, other: &BigInt) -> (r: i8)
        ensures
            r == -1 <==> self@ < other@,
            r == 0 <==> self@ == other@,
            r == 1 <==> self@ > other@,
    {
        let len = if self.digits.len() >= other.digits.len() {
            self.digits.len()
        } else {
            other.digits.len()
        };
        let ghost mine = sign_extended(self.digits@, len as nat);
        let ghost theirs = sign_extended(other.digits@, len as nat);
        proof {
            lemma_sign_extension(self.digits@, len as nat);
            lemma_sign_extension(other.digits@, len as nat);
        }
        if len == 0 {
            return 0;
        }
        let first_mine = self.digit_at(len, 0);
        let first_theirs = other.digit_at(len, 0);
        let lead_mine: i16 = if first_mine >= 128 {
            first_mine as i16 - 256
        } else {
            first_mine as i16
        };
        let lead_theirs: i16 = if first_theirs >= 128 {
            first_theirs as i16 - 256
        } else {
            first_theirs as i16
        };
        let mut sign: i8 = if lead_mine < lead_theirs {
            -1
        } else if lead_mine == lead_theirs {
            0
        } else {
            1
        };
        let mut place: usize = 1;
        assert(signed_be(mine.take(1)) == lead_mine);
        assert(signed_be(theirs.take(1)) == lead_theirs);
        while place < len
            invariant
                1 <= place <= len,
                self.digits.len() <= len,
                other.digits.len() <= len,
                mine == sign_extended(self.digits@, len as nat),
                theirs == sign_extended(other.digits@, len as nat),
                sign == -1 <==> signed_be(mine.take(place as int)) < signed_be(
                    theirs.take(place as int),
                ),
                sign == 0 <==> signed_be(mine.take(place as int)) == signed_be(
                    theirs.take(place as int),
                ),
                sign == 1 <==> signed_be(mine.take(place as int)) > signed_be(
                    theirs.take(place as int),
                ),
            decreases len - place,
        {
            let digit_mine = self.digit_at(len, place);
            let digit_theirs = other.digit_at(len, place);
            proof {
                lemma_one_more_digit(mine, place as int);
                lemma_one_more_digit(theirs, place as int);
            }
            if sign == 0 {
                if digit_mine < digit_theirs {
                    sign = -1;
                } else if digit_mine > digit_theirs {
                    sign = 1;
                }
            }
            place += 1;
        }
        assert(mine.take(len as int) =~= mine);
        assert(theirs.take(len as int) =~= theirs);
        sign
    }
}

impl PartialEq for BigInt {
    /// Two integers are equal when they are the same number, whatever digits hold them.
    fn eq(&self, other: &BigInt) -> (r: bool) {
        self.sign_of_difference(other) == 0
    }
}

impl vstd::std_specs::cmp::PartialEqSpecImpl for BigInt {
    open spec fn obeys_eq_spec() -> bool {
        true
    }

    open spec fn eq_spec(&self, other: &BigInt) -> bool {
        self@ == other@
    }
}

impl Eq for BigInt {

}

/// The character that stands for a number below ten.
pub open spec fn digit_char(digit: nat) -> char
    recommends
        digit < 10,
{
    seq!['0', '1', '2', '3', '4', '5', '6', '7', '8', '9'][digit as int]
}

/// The decimal digits of a natural number, the most significant first, with no zero in
/// front; one zero for the number zero.
pub open spec fn decimal_digits(n: nat) -> Seq<char>
    decreases n,
{
    if n < 10 {
        seq![digit_char(n)]
    } else {
        decimal_digits(n / 10).push(digit_char(n % 10))
    }
}

/// The decimal digits of an integer, behind a minus sign where it is negative.
pub open spec fn decimal(value: int) -> Seq<char> {
    if value < 0 {
        seq!['-'] + decimal_digits((-value) as nat)
    } else {
        decimal_digits(value as nat)
    }
}

/// `Display` of the integers of `num-bigint`, which writes the number in decimal digits
/// without a zero in front, behind a minus sign where it is negative.
#[verifier::external_body]
pub(crate) fn to_decimal(a: &BigInt) -> (r: String)
    ensures
        r@ == decimal(a@),
{
    fvm_shared::bigint::BigInt::from_signed_bytes_be(&a.digits).to_string()
}

/// `+` on the integers of `num-bigint`, which adds without limit.
#[verifier::external_body]
pub(crate) fn sum(a: &BigInt, b: &BigInt) -> (r: BigInt)
    ensures
        r@ == a@ + b@,
{
    let x = fvm_shared::bigint::BigInt::from_signed_bytes_be(&a.digits);
    let y = fvm_shared::bigint::BigInt::from_signed_bytes_be(&b.digits);
    BigInt { digits: (x + y).to_signed_bytes_be() }
}

/// `-` on the integers of `num-bigint`, which subtracts without limit.
#[verifier::external_body]
pub(crate) fn difference(a: &BigInt, b: &BigInt) -> (r: BigInt)
    ensures
        r@ == a@ - b@,
{
    let x = fvm_shared::bigint::BigInt::from_signed_bytes_be(&a.digits);
    let y = fvm_shared::bigint::BigInt::from_signed_bytes_be(&b.digits);
    BigInt { digits: (x - y).to_signed_bytes_be() }
}

/// `*` of a `num-bigint` integer by an `i64`, which multiplies without limit.
#[verifier::external_body]
pub(crate) fn product(a: &BigInt, factor: i64) -> (r: BigInt)
    ensures
        r@ == a@ * factor,
{
    let x = fvm_shared::bigint::BigInt::from_signed_bytes_be(&a.digits);
    BigInt { digits: (x * factor).to_signed_bytes_be() }
}

/// `/` of a `num-bigint` integer by an `i64`. It divides the magnitudes and keeps the
/// sign of the exact quotient, so the result is rounded toward zero; it panics on a zero
/// divisor, which the precondition leaves out.
#[verifier::external_body]
pub(crate) fn quotient(a: &BigInt, divisor: i64) -> (r: BigInt)
    requires
        divisor != 0,
    ensures
        r@ == truncated_quotient(a@, divisor as int),
{
    let x = fvm_shared::bigint::BigInt::from_signed_bytes_be(&a.digits);
    BigInt { digits: (x / divisor).to_signed_bytes_be() }
}

} // verus!
