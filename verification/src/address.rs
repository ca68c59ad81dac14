//! Actor addresses and the key that a pair of them makes.

use vstd::prelude::*;

verus! {

/// Whether two byte strings are the same, byte for byte.
pub fn same_bytes(a: &Vec<u8>, b: &Vec<u8>) -> (r: bool)
    ensures
        r == (a@ == b@),
{
    if a.len() != b.len() {
        return false;
    }
    let mut i: usize = 0;
    while i < a.len()
        invariant
            a.len() == b.len(),
            i <= a.len(),
            forall|j: int| 0 <= j < i ==> a@[j] == b@[j],
        decreases a.len() - i,
    {
        if a[i] != b[i] {
            return false;
        }
        i += 1;
    }
    assert(a@ =~= b@);
    true
}

/// An actor's address, held as its canonical byte encoding.
///
/// Two addresses are the same address exactly when their encodings are the same bytes.
#[derive(Debug)]
pub struct Address {
    pub(crate) bytes: Vec<u8>,
}

impl View for Address {
    type V = Seq<u8>;

    closed spec fn view(&self) -> Seq<u8> {
        self.bytes@
    }
}

impl Clone for Address {
    fn clone(&self) -> (r: Self)
        ensures
            r@ == self@,
    {
        Address { bytes: self.bytes.clone() }
    }
}

impl PartialEq for Address {
    fn eq(&self, other: &Address) -> (r: bool) {
        same_bytes(&self.bytes, &other.bytes)
    }
}

impl vstd::std_specs::cmp::PartialEqSpecImpl for Address {
    open spec fn obeys_eq_spec() -> bool {
        true
    }

    open spec fn eq_spec(&self, other: &Address) -> bool {
        self@ == other@
    }
}

impl Eq for Address {

}

impl Address {
    /// The address with the given encoding. The bytes are taken as they are: whether they
    /// encode an address of some protocol is not asked.
    pub fn from_bytes(bytes: Vec<u8>) -> (r: Address)
        ensures
            r@ == bytes@,
    {
        Address { bytes }
    }

    /// Whether this is the address of an actor by its number.
    pub fn is_id(&self) -> (r: bool)
        ensures
            r == is_id_address(self@),
    {
        let len = self.bytes.len();
        if len < 2 || self.bytes[0] != 0 || self.bytes[len - 1] >= 128 {
            return false;
        }
        let mut i: usize = 1;
        while i < len - 1
            invariant
                2 <= len == self.bytes.len(),
                1 <= i <= len - 1,
                forall|j: int| 1 <= j < i ==> self.bytes@[j] >= 128,
            decreases len - i,
        {
            if self.bytes[i] < 128 {
                return false;
            }
            i += 1;
        }
        true
    }

    /// The encoding of the address.
    pub fn to_bytes(&self) -> (r: Vec<u8>)
        ensures
            r@ == self@,
    {
        self.bytes.clone()
    }
}

/// An ordered pair of addresses, as it keys a map.
///
/// The pair is not sorted: turning it round gives another key. The key is the two
/// encodings one after the other and nothing else, so it is the key of this pair alone
/// only among pairs whose first addresses are not the beginning of one another; see
/// [`lemma_pair_key_is_one_to_one`].
#[derive(Debug)]
pub struct AddrPairKey {
    pub first: Address,
    pub second: Address,
}

impl AddrPairKey {
    pub fn new(first: Address, second: Address) -> (r: AddrPairKey)
        ensures
            r.first == first,
            r.second == second,
    {
        AddrPairKey { first, second }
    }

    /// The key as a sequence of bytes: the first encoding, then the second.
    pub open spec fn spec_bytes(&self) -> Seq<u8> {
        pair_key(self.first@, self.second@)
    }

    /// The bytes of the key: the encoding of the first address followed by that of the
    /// second.
    pub fn to_bytes(&self) -> (r: Vec<u8>)
        ensures
            r@ == self.spec_bytes(),
    {
        let mut first = self.first.to_bytes();
        let mut second = self.second.to_bytes();
        first.append(&mut second);
        first
    }
}

/// The key of the pair made of two address encodings.
pub open spec fn pair_key(first: Seq<u8>, second: Seq<u8>) -> Seq<u8> {
    first + second
}

/// Whether the bytes encode the address of an actor by its number: the protocol byte
/// zero, then the number in groups of seven bits, each byte but the last with its top
/// bit set.
pub open spec fn is_id_address(bytes: Seq<u8>) -> bool {
    &&& bytes.len() >= 2
    &&& bytes[0] == 0
    &&& bytes.last() < 128
    &&& forall|i: int| 1 <= i < bytes.len() - 1 ==> bytes[i] >= 128
}

/// Whether the first byte string is the beginning of the second and shorter than it.
pub open spec fn is_proper_prefix(short: Seq<u8>, long: Seq<u8>) -> bool {
    short.len() < long.len() && long.subrange(0, short.len() as int) == short
}

/// Whether neither of two byte strings is the beginning of the other, unless they are the
/// same. Byte strings of one length are so, whatever they hold.
pub open spec fn prefix_free(a: Seq<u8>, b: Seq<u8>) -> bool {
    !is_proper_prefix(a, b) && !is_proper_prefix(b, a)
}

/// The key of a pair does not say where the first address ends. So two pairs can share a
/// key where one first address is the beginning of the other; where neither is, two
/// different pairs have different keys.
pub proof fn lemma_pair_key_is_one_to_one(
    first_a: Seq<u8>,
    second_a: Seq<u8>,
    first_b: Seq<u8>,
    second_b: Seq<u8>,
)
    requires
        prefix_free(first_a, first_b),
        pair_key(first_a, second_a) == pair_key(first_b, second_b),
    ensures
        first_a == first_b,
        second_a == second_b,
{
    let key_a = pair_key(first_a, second_a);
    let key_b = pair_key(first_b, second_b);
    assert(key_a.len() == first_a.len() + second_a.len());
    assert(key_b.len() == first_b.len() + second_b.len());
    if first_a.len() < first_b.len() {
        assert forall|i: int| 0 <= i < first_a.len() implies first_b[i] == first_a[i] by {
            assert(key_a[i] == first_a[i]);
            assert(key_b[i] == first_b[i]);
        }
        assert(first_b.subrange(0, first_a.len() as int) =~= first_a);
    } else if first_b.len() < first_a.len() {
        assert forall|i: int| 0 <= i < first_b.len() implies first_a[i] == first_b[i] by {
            assert(key_a[i] == first_a[i]);
            assert(key_b[i] == first_b[i]);
        }
        assert(first_a.subrange(0, first_b.len() as int) =~= first_b);
    } else {
        assert forall|i: int| 0 <= i < first_a.len() implies first_a[i] == first_b[i] by {
            assert(key_a[i] == first_a[i]);
            assert(key_b[i] == first_b[i]);
        }
        assert(first_a =~= first_b);
        assert forall|i: int| 0 <= i < second_a.len() implies second_a[i] == second_b[i] by {
            assert(key_a[first_a.len() + i] == second_a[i]);
            assert(key_b[first_b.len() + i] == second_b[i]);
        }
        assert(second_a =~= second_b);
    }
}

/// Of the addresses of two actors by their numbers, neither is the beginning of the other:
/// the byte with its top bit clear ends each.
pub proof fn lemma_id_addresses_are_prefix_free(a: Seq<u8>, b: Seq<u8>)
    requires
        is_id_address(a),
        is_id_address(b),
    ensures
        prefix_free(a, b),
{
    if is_proper_prefix(a, b) {
        assert(b.subrange(0, a.len() as int)[a.len() - 1] == b[a.len() - 1]);
    }
    if is_proper_prefix(b, a) {
        assert(a.subrange(0, b.len() as int)[b.len() - 1] == a[b.len() - 1]);
    }
}

/// Where verifiers are named by their numbers, as the registry names them, the counter of
/// one verifier for one client has a key of its own: two different pairs have different
/// keys.
pub proof fn lemma_pair_keys_of_id_addresses_differ(
    first_a: Seq<u8>,
    second_a: Seq<u8>,
    first_b: Seq<u8>,
    second_b: Seq<u8>,
)
    requires
        is_id_address(first_a),
        is_id_address(first_b),
        first_a != first_b || second_a != second_b,
    ensures
        pair_key(first_a, second_a) != pair_key(first_b, second_b),
{
    lemma_id_addresses_are_prefix_free(first_a, first_b);
    if pair_key(first_a, second_a) == pair_key(first_b, second_b) {
        lemma_pair_key_is_one_to_one(first_a, second_a, first_b, second_b);
    }
}

/// Two pairs that end in the same address and begin with different ones have different
/// keys.
pub proof fn lemma_pair_keys_differ(first_a: Seq<u8>, first_b: Seq<u8>, second: Seq<u8>)
    requires
        first_a != first_b,
    ensures
        pair_key(first_a, second) != pair_key(first_b, second),
{
    let key_a = pair_key(first_a, second);
    let key_b = pair_key(first_b, second);
    if key_a == key_b {
        assert(first_a.len() == first_b.len()) by {
            assert(key_a.len() == first_a.len() + second.len());
            assert(key_b.len() == first_b.len() + second.len());
        }
        assert forall|i: int| 0 <= i < first_a.len() implies first_a[i] == first_b[i] by {
            assert(key_a[i] == first_a[i]);
            assert(key_b[i] == first_b[i]);
        }
        assert(first_a =~= first_b);
    }
}

} // verus!
