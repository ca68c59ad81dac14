//! The bytes of a record on the wire: DAG-CBOR, as far as the registry writes it itself.
//!
//! A record is an array of its fields in their order. Each data item begins with a head
//! that holds its major type and a number, in the shortest form that the number fits: the
//! value of an unsigned integer, the length of a byte string, the number of items in an
//! array. The framing is done and proved here; only the bytes of a big integer are
//! asked of `fvm_shared`, behind the trusted function at the end of this file.

use crate::datacap::DataCap;
use vstd::prelude::*;

verus! {

/// `fvm_ipld_encoding::Error`, the failure of an encoding.
#[verifier::external_type_specification]
#[verifier::external_body]
pub struct ExEncodingError(fvm_ipld_encoding::Error);

/// The head of a data item: the major type in the top three bits of the first byte, and
/// the number in the other five where it is below 24, or else in the one, two, four or
/// eight bytes that follow, most significant first, the fewest that hold it.
pub open spec fn cbor_head(major: u8, number: u64) -> Seq<u8>
    recommends
        major < 8,
{
    if number < 24 {
        seq![(major * 32 + number) as u8]
    } else if number < 0x100 {
        seq![(major * 32 + 24) as u8, number as u8]
    } else if number < 0x1_0000 {
        seq![(major * 32 + 25) as u8, (number / 0x100) as u8, (number % 0x100) as u8]
    } else if number < 0x1_0000_0000 {
        seq![
            (major * 32 + 26) as u8,
            (number / 0x100_0000) as u8,
            (number / 0x1_0000 % 0x100) as u8,
            (number / 0x100 % 0x100) as u8,
            (number % 0x100) as u8,
        ]
    } else {
        seq![
            (major * 32 + 27) as u8,
            (number / 0x100_0000_0000_0000) as u8,
            (number / 0x1_0000_0000_0000 % 0x100) as u8,
            (number / 0x100_0000_0000 % 0x100) as u8,
            (number / 0x1_0000_0000 % 0x100) as u8,
            (number / 0x100_0000 % 0x100) as u8,
            (number / 0x1_0000 % 0x100) as u8,
            (number / 0x100 % 0x100) as u8,
            (number % 0x100) as u8,
        ]
    }
}

/// An unsigned integer on the wire: a head of major type 0 that holds it.
pub open spec fn cbor_unsigned(number: u64) -> Seq<u8> {
    cbor_head(0, number)
}

/// A byte string on the wire: a head of major type 2 that holds its length, then the bytes.
pub open spec fn cbor_bytes(bytes: Seq<u8>) -> Seq<u8>
    recommends
        bytes.len() <= u64::MAX,
{
    cbor_head(2, bytes.len() as u64) + bytes
}

/// The beginning of an array on the wire: a head of major type 4 that holds the number of
/// its items, which follow.
pub open spec fn cbor_array(items: u64) -> Seq<u8> {
    cbor_head(4, items)
}

/// The digits of a natural number in base 256, the most significant first, with no zero
/// in front; none at all for zero.
pub open spec fn magnitude_be(n: nat) -> Seq<u8>
    decreases n,
{
    if n == 0 {
        Seq::<u8>::empty()
    } else {
        magnitude_be(n / 256).push((n % 256) as u8)
    }
}

/// The bytes that stand for a big integer on the wire: none for zero, else a byte for the
/// sign, 0 for a positive and 1 for a negative number, and the digits of the magnitude.
pub open spec fn bigint_bytes(value: int) -> Seq<u8> {
    if value == 0 {
        Seq::<u8>::empty()
    } else if value > 0 {
        seq![0u8] + magnitude_be(value as nat)
    } else {
        seq![1u8] + magnitude_be((-value) as nat)
    }
}

/// A big integer on the wire: its bytes as a byte string. One whose bytes are more than
/// 128 is not written.
pub open spec fn cbor_bigint(value: int) -> Option<Seq<u8>> {
    if bigint_bytes(value).len() > 128 {
        None
    } else {
        Some(cbor_bytes(bigint_bytes(value)))
    }
}

/// The head of a data item.
fn encode_head(major: u8, number: u64) -> (r: Vec<u8>)
    requires
        major < 8,
    ensures
        r@ == cbor_head(major, number),
{
    let mut head: Vec<u8> = Vec::new();
    if number < 24 {
        head.push(major * 32 + number as u8);
    } else if number < 0x100 {
        head.push(major * 32 + 24);
        head.push(number as u8);
    } else if number < 0x1_0000 {
        head.push(major * 32 + 25);
        head.push((number / 0x100) as u8);
        head.push((number % 0x100) as u8);
    } else if number < 0x1_0000_0000 {
        head.push(major * 32 + 26);
        head.push((number / 0x100_0000) as u8);
        head.push((number / 0x1_0000 % 0x100) as u8);
        head.push((number / 0x100 % 0x100) as u8);
        head.push((number % 0x100) as u8);
    } else {
        head.push(major * 32 + 27);
        head.push((number / 0x100_0000_0000_0000) as u8);
        head.push((number / 0x1_0000_0000_0000 % 0x100) as u8);
        head.push((number / 0x100_0000_0000 % 0x100) as u8);
        head.push((number / 0x1_0000_0000 % 0x100) as u8);
        head.push((number / 0x100_0000 % 0x100) as u8);
        head.push((number / 0x1_0000 % 0x100) as u8);
        head.push((number / 0x100 % 0x100) as u8);
        head.push((number % 0x100) as u8);
    }
    assert(head@ =~= cbor_head(major, number));
    head
}

/// An unsigned integer on the wire.
pub fn encode_unsigned(number: u64) -> (r: Vec<u8>)
    ensures
        r@ == cbor_unsigned(number),
{
    encode_head(0, number)
}

/// A byte string on the wire.
pub fn encode_bytes(bytes: &Vec<u8>) -> (r: Vec<u8>)
    ensures
        r@ == cbor_bytes(bytes@),
{
    let mut item = encode_head(2, bytes.len() as u64);
    item.extend_from_slice(bytes.as_slice());
    item
}

/// The beginning of an array on the wire.
pub fn encode_array(items: u64) -> (r: Vec<u8>)
    ensures
        r@ == cbor_array(items),
{
    encode_head(4, items)
}

/// The head of a data item gives its number back: two numbers with the same head under
/// one major type are the same number.
pub proof fn lemma_head_is_one_to_one(major: u8, a: u64, b: u64)
    requires
        major < 8,
        cbor_head(major, a) == cbor_head(major, b),
    ensures
        a == b,
{
    let head_a = cbor_head(major, a);
    let head_b = cbor_head(major, b);
    assert(head_a.len() == head_b.len());
    if a < 24 {
        assert(b < 24);
        assert(head_a[0] == head_b[0]);
    } else if a < 0x100 {
        assert(24 <= b < 0x100);
        assert(head_a[1] == head_b[1]);
    } else if a < 0x1_0000 {
        assert(0x100 <= b < 0x1_0000);
        assert(head_a[1] == head_b[1]);
        assert(head_a[2] == head_b[2]);
        assert(a / 0x100 == b / 0x100);
        assert(a % 0x100 == b % 0x100);
    } else if a < 0x1_0000_0000 {
        assert(0x1_0000 <= b < 0x1_0000_0000);
        assert(head_a[1] == head_b[1]);
        assert(head_a[2] == head_b[2]);
        assert(head_a[3] == head_b[3]);
        assert(head_a[4] == head_b[4]);
        assert(a / 0x100_0000 == b / 0x100_0000);
        assert(a / 0x1_0000 % 0x100 == b / 0x1_0000 % 0x100);
        assert(a / 0x100 % 0x100 == b / 0x100 % 0x100);
        assert(a % 0x100 == b % 0x100);
        assert(a == b) by (bit_vector)
            requires
                a / 0x100_0000 == b / 0x100_0000,
                a / 0x1_0000 % 0x100 == b / 0x1_0000 % 0x100,
                a / 0x100 % 0x100 == b / 0x100 % 0x100,
                a % 0x100 == b % 0x100,
        ;
    } else {
        assert(0x1_0000_0000 <= b);
        assert(head_a[1] == head_b[1]);
        assert(head_a[2] == head_b[2]);
        assert(head_a[3] == head_b[3]);
        assert(head_a[4] == head_b[4]);
        assert(head_a[5] == head_b[5]);
        assert(head_a[6] == head_b[6]);
        assert(head_a[7] == head_b[7]);
        assert(head_a[8] == head_b[8]);
        assert(a / 0x100_0000_0000_0000 == b / 0x100_0000_0000_0000);
        assert(a / 0x1_0000_0000_0000 % 0x100 == b / 0x1_0000_0000_0000 % 0x100);
        assert(a / 0x100_0000_0000 % 0x100 == b / 0x100_0000_0000 % 0x100);
        assert(a / 0x1_0000_0000 % 0x100 == b / 0x1_0000_0000 % 0x100);
        assert(a / 0x100_0000 % 0x100 == b / 0x100_0000 % 0x100);
        assert(a / 0x1_0000 % 0x100 == b / 0x1_0000 % 0x100);
        assert(a / 0x100 % 0x100 == b / 0x100 % 0x100);
        assert(a % 0x100 == b % 0x100);
        assert(a == b) by (bit_vector)
            requires
                a / 0x100_0000_0000_0000 == b / 0x100_0000_0000_0000,
                a / 0x1_0000_0000_0000 % 0x100 == b / 0x1_0000_0000_0000 % 0x100,
                a / 0x100_0000_0000 % 0x100 == b / 0x100_0000_0000 % 0x100,
                a / 0x1_0000_0000 % 0x100 == b / 0x1_0000_0000 % 0x100,
                a / 0x100_0000 % 0x100 == b / 0x100_0000 % 0x100,
                a / 0x1_0000 % 0x100 == b / 0x1_0000 % 0x100,
                a / 0x100 % 0x100 == b / 0x100 % 0x100,
                a % 0x100 == b % 0x100,
        ;
    }
}

/// `fvm_ipld_encoding::to_vec` on the big integer as `fvm_shared` writes it: where the
/// number is not zero, a byte for the sign goes before the big-endian digits of the
/// magnitude, which `num-bigint` gives without a zero in front; more than 128 bytes are
/// refused; the bytes are written as one byte string.
#[verifier::external_body]
pub(crate) fn encode_bigint(amount: &DataCap) -> (r: Result<Vec<u8>, fvm_ipld_encoding::Error>)
    ensures
        match r {
            Ok(bytes) => cbor_bigint(amount@) == Some(bytes@),
            Err(_) => cbor_bigint(amount@) is None,
        },
{
    let amount = fvm_shared::bigint::BigInt::from_signed_bytes_be(&amount.0.digits);
    fvm_ipld_encoding::to_vec(&fvm_shared::bigint::bigint_ser::BigIntSer(&amount))
}

} // verus!
