//! The block store and the persistent maps that are kept in it.
//!
//! A persistent map is a hash-array-mapped trie of the `fvm_ipld_hamt` crate whose nodes
//! lie in a content-addressed block store. Flushing a map writes its nodes and returns
//! the identifier of its root, which is computed from what the map holds; loading from
//! that identifier brings the same map back. This module gives those maps to the rest of
//! the crate as two handle types with a few trusted functions each, stated over the
//! entries that a handle holds and over the entries that a root identifies.
//!
//! What is said of the maps is not proved: each trusted function says in its comment what
//! it takes from the outside crate. Throughout, an identifier is taken to identify one
//! block only, which holds for the hash in use unless two blocks are found that collide.
//! A block enters a store only under the identifier that is computed from its bytes: when
//! a map is flushed, or through [`Store::import_block`].
//!
//! A trie is well formed when it is in the one form that the outside crate's own
//! operations give it, starting from a map without entries: each key lies on the path
//! that its hash prescribes, the pairs that share a place lie in the order of their keys,
//! and a node below the root holds more pairs than fit in one place, or it would have
//! been folded up. Any node of such a trie is a block in the store, and nothing keeps a
//! caller from naming an inner node as if it were a root. A map opened on such a node is
//! not well formed: it holds keys that a lookup does not find, and taking a key out of it
//! may bring others to light. So what a deletion leaves behind, and that the entries fix
//! the root, is stated of well-formed maps only.

use crate::address::same_bytes;
use crate::datacap::DataCap;
use crate::error::{ActorError, ExitCode};
use vstd::prelude::*;

verus! {

/// `fvm_ipld_blockstore::MemoryBlockstore`, a store that keeps its blocks in memory.
#[verifier::external_type_specification]
#[verifier::external_body]
pub struct ExMemoryBlockstore(fvm_ipld_blockstore::MemoryBlockstore);

/// `fvm_ipld_hamt::Error`, the failure of an operation on a persistent map.
#[verifier::external_type_specification]
#[verifier::external_body]
pub struct ExHamtError(fvm_ipld_hamt::Error);

/// `MemoryBlockstore::new`, which returns a store without blocks. Nothing is stated of
/// it: no contract speaks of the blocks in a store.
pub assume_specification[ fvm_ipld_blockstore::MemoryBlockstore::new ]() -> fvm_ipld_blockstore::MemoryBlockstore
;

/// A content-addressed store of blocks, held in memory.
///
/// Blocks enter it when a persistent map is flushed and when they are handed in, each
/// under the identifier computed from its bytes; none is changed or removed afterwards.
pub struct Store {
    blocks: fvm_ipld_blockstore::MemoryBlockstore,
}

/// The identifier of a block with the given bytes: the identifier under which the store
/// keeps it, made of the hash of the bytes.
pub uninterp spec fn block_identifier(bytes: Seq<u8>) -> Seq<u8>;

/// `Blockstore::put` of the memory store, which computes the identifier of the block from
/// its bytes, with the hash and the codec that the persistent maps use for their nodes,
/// and keeps the block under it.
#[verifier::external_body]
fn put_block(store: &Store, bytes: &Vec<u8>) -> (r: Result<Cid, String>)
    ensures
        r matches Ok(id) ==> id@ == block_identifier(bytes@),
{
    let block = fvm_ipld_blockstore::Block::new(fvm_ipld_encoding::DAG_CBOR, bytes);
    let cid = fvm_ipld_blockstore::Blockstore::put(
        &store.blocks,
        multihash_codetable::Code::Blake2b256,
        &block,
    ).map_err(|e| e.to_string())?;
    Ok(Cid { bytes: cid.to_bytes() })
}

/// `Blockstore::get` of the memory store, which returns the block that is kept under an
/// identifier, if there is one. The identifier is read from the beginning of the bytes
/// given, so the result holds it as the store has it beside the block. As every block is
/// kept under the identifier computed from its bytes, that is the block's own.
#[verifier::external_body]
fn get_block(store: &Store, id: &Cid) -> (r: Result<Option<(Cid, Vec<u8>)>, String>)
    ensures
        r matches Ok(Some(found)) ==> found.0@ == block_identifier(found.1@),
{
    let cid = cid::Cid::try_from(id.bytes.as_slice()).map_err(|e| e.to_string())?;
    let found = fvm_ipld_blockstore::Blockstore::get(&store.blocks, &cid).map_err(
        |e| e.to_string(),
    )?;
    Ok(found.map(|bytes| (Cid { bytes: cid.to_bytes() }, bytes)))
}

/// The block that was found for an identifier, where it was found under just that
/// identifier: bytes with more behind the identifier name no block.
pub fn block_under(id: &Cid, found: Option<(Cid, Vec<u8>)>) -> (r: Option<Vec<u8>>)
    ensures
        r == match found {
            Some(kept) => if kept.0@ == id@ {
                Some(kept.1)
            } else {
                None
            },
            None => None,
        },
{
    match found {
        Some(kept) => {
            if kept.0 == *id {
                Some(kept.1)
            } else {
                None
            }
        },
        None => None,
    }
}

impl Store {
    /// A store without blocks.
    pub fn new() -> Store {
        Store { blocks: fvm_ipld_blockstore::MemoryBlockstore::new() }
    }

    /// Hands a block in. The store computes the identifier from the bytes itself and
    /// returns it; no block can be put under an identifier that is not its own.
    pub fn import_block(&self, bytes: &Vec<u8>) -> (r: Result<Cid, ActorError>)
        ensures
            match r {
                Ok(id) => id@ == block_identifier(bytes@),
                Err(e) => e.exit_code() == ExitCode::IllegalState,
            },
    {
        match put_block(self, bytes) {
            Ok(id) => Ok(id),
            Err(cause) => Err(ActorError::illegal_state(cause)),
        }
    }

    /// Hands a block out: the block that the identifier identifies, or nothing where the
    /// store has none.
    pub fn export_block(&self, id: &Cid) -> (r: Result<Option<Vec<u8>>, ActorError>)
        ensures
            r matches Ok(Some(bytes)) ==> block_identifier(bytes@) == id@,
            r matches Err(e) ==> e.exit_code() == ExitCode::IllegalState,
    {
        match get_block(self, id) {
            Ok(found) => Ok(block_under(id, found)),
            Err(cause) => Err(ActorError::illegal_state(cause)),
        }
    }
}

/// The identifier of a block, in its binary form.
#[derive(Debug)]
pub struct Cid {
    pub(crate) bytes: Vec<u8>,
}

impl View for Cid {
    type V = Seq<u8>;

    closed spec fn view(&self) -> Seq<u8> {
        self.bytes@
    }
}

impl Clone for Cid {
    fn clone(&self) -> (r: Self)
        ensures
            r@ == self@,
    {
        Cid { bytes: self.bytes.clone() }
    }
}

impl PartialEq for Cid {
    fn eq(&self, other: &Cid) -> (r: bool) {
        crate::address::same_bytes(&self.bytes, &other.bytes)
    }
}

impl vstd::std_specs::cmp::PartialEqSpecImpl for Cid {
    open spec fn obeys_eq_spec() -> bool {
        true
    }

    open spec fn eq_spec(&self, other: &Cid) -> bool {
        self@ == other@
    }
}

impl Eq for Cid {

}

impl Cid {
    /// The identifier with the given binary form.
    pub fn from_bytes(bytes: Vec<u8>) -> (r: Cid)
        ensures
            r@ == bytes@,
    {
        Cid { bytes }
    }

    /// The binary form of the identifier.
    pub fn to_bytes(&self) -> (r: Vec<u8>)
        ensures
            r@ == self@,
    {
        self.bytes.clone()
    }
}

/// A persistent map from byte strings to data caps, open on a store.
#[verifier::external_body]
pub struct VerifierMap<'a> {
    hamt: fvm_ipld_hamt::Hamt<&'a fvm_ipld_blockstore::MemoryBlockstore, fvm_shared::bigint::bigint_ser::BigIntDe>,
}

/// The entries that a map of data caps holds: each key with the number of bytes of its
/// data cap.
pub uninterp spec fn verifier_entries(map: VerifierMap) -> Map<Seq<u8>, int>;

/// Whether a map of data caps is well formed: its trie is in the form that the outside
/// crate's operations give it, with each key on the path that its hash prescribes.
pub uninterp spec fn verifiers_well_formed(map: VerifierMap) -> bool;

/// The entries of the map of data caps that a root identifies.
///
/// A root is computed from the bytes of the root node, which hold the identifiers of the
/// nodes below it, and so on down to the entries. So the root fixes every entry, whatever
/// store the nodes are read from; a store decides only whether they can be read.
pub uninterp spec fn verifiers_at(root: Seq<u8>) -> Map<Seq<u8>, int>;

/// Whether the bytes identify the root of a well-formed map of data caps. As the root
/// fixes the whole trie, it fixes this too.
pub uninterp spec fn is_verifiers_root(root: Seq<u8>) -> bool;

/// The root of the well-formed map of data caps with the given entries.
///
/// The outside crate keeps a trie in one form for what it holds: a key has its place by
/// its hash, the pairs that share a place lie in the order of their keys, and a deletion
/// folds up what an insertion had spread out. So the entries fix the trie, and with it the
/// root, whatever the order in which they were put and taken out.
pub uninterp spec fn verifiers_root(entries: Map<Seq<u8>, int>) -> Seq<u8>;

/// A persistent map from byte strings to counters, open on a store.
#[verifier::external_body]
pub struct ProposalIdMap<'a> {
    hamt: fvm_ipld_hamt::Hamt<&'a fvm_ipld_blockstore::MemoryBlockstore, u64>,
}

/// The entries that a map of counters holds.
pub uninterp spec fn proposal_id_entries(map: ProposalIdMap) -> Map<Seq<u8>, u64>;

/// Whether a map of counters is well formed: its trie is in the form that the outside
/// crate's operations give it, with each key on the path that its hash prescribes.
pub uninterp spec fn proposal_ids_well_formed(map: ProposalIdMap) -> bool;

/// The entries of the map of counters that a root identifies. As for a map of data caps,
/// the root fixes every entry.
pub uninterp spec fn proposal_ids_at(root: Seq<u8>) -> Map<Seq<u8>, u64>;

/// Whether the bytes identify the root of a well-formed map of counters.
pub uninterp spec fn is_proposal_ids_root(root: Seq<u8>) -> bool;

/// The root of the well-formed map of counters with the given entries. As for a map of
/// data caps, the entries fix the root.
pub uninterp spec fn proposal_ids_root(entries: Map<Seq<u8>, u64>) -> Seq<u8>;

/// What a lookup in `entries` gives for `key`.
pub open spec fn lookup<V>(entries: Map<Seq<u8>, V>, key: Seq<u8>) -> Option<V> {
    if entries.contains_key(key) {
        Some(entries[key])
    } else {
        None
    }
}

/// The number of bytes of a data cap that may be there.
pub open spec fn bytes_of(cap: Option<DataCap>) -> Option<int> {
    match cap {
        Some(cap) => Some(cap@),
        None => None,
    }
}

/// `Display` of the map's error, behind the given words and a colon. Nothing is stated
/// of the text.
#[verifier::external_body]
pub(crate) fn describe(context: &str, cause: &fvm_ipld_hamt::Error) -> String {
    format!("{}: {}", context, cause)
}

/// `Hamt::new_with_bit_width`, which returns a map without entries. Such a map is well
/// formed.
#[verifier::external_body]
pub(crate) fn empty_verifiers<'a>(store: &'a Store) -> (r: VerifierMap<'a>)
    ensures
        verifier_entries(r) == (Map::<Seq<u8>, int>::empty()),
        verifiers_well_formed(r),
{
    VerifierMap { hamt: fvm_ipld_hamt::Hamt::new_with_bit_width(&store.blocks, fvm_shared::HAMT_BIT_WIDTH) }
}

/// `Hamt::load_with_bit_width`, which reads the root node from the store and fails
/// where the store has no such block or the block is no node. It looks at the shape of
/// the node only. A map that it returns holds the entries that the root identifies, and
/// is well formed where the root is that of a well-formed map. Bytes that are no
/// identifier at all are reported as the same error.
#[verifier::external_body]
pub(crate) fn load_verifiers<'a>(root: &Cid, store: &'a Store) -> (r: Result<
    VerifierMap<'a>,
    fvm_ipld_hamt::Error,
>)
    ensures
        r matches Ok(map) ==> {
            &&& verifier_entries(map) == verifiers_at(root@)
            &&& is_verifiers_root(root@) ==> verifiers_well_formed(map)
        },
{
    let cid = cid::Cid::try_from(root.bytes.as_slice()).map_err(
        |e| fvm_ipld_hamt::Error::from(e.to_string()),
    )?;
    let hamt = fvm_ipld_hamt::Hamt::load_with_bit_width(&cid, &store.blocks, fvm_shared::HAMT_BIT_WIDTH)?;
    Ok(VerifierMap { hamt })
}

/// `Hamt::get`, which returns the value under the key, or nothing where the map has no
/// such key. It fails where a node on the way cannot be read from the store.
#[verifier::external_body]
pub(crate) fn get_verifier(map: &VerifierMap, key: &Vec<u8>) -> (r: Result<
    Option<DataCap>,
    fvm_ipld_hamt::Error,
>)
    ensures
        r matches Ok(found) ==> bytes_of(found) == lookup(verifier_entries(*map), key@),
{
    let found = map.hamt.get(key)?;
    Ok(found.map(|v| DataCap(crate::bigint::BigInt { digits: v.0.to_signed_bytes_be() })))
}

/// `Hamt::set`, which puts the value under the key, in place of the one that was there if
/// there was one, and leaves the other keys as they were. A well-formed map stays well
/// formed. Where it fails, nothing is stated of the map.
#[verifier::external_body]
pub(crate) fn set_verifier(map: &mut VerifierMap, key: Vec<u8>, cap: &DataCap) -> (r: Result<
    (),
    fvm_ipld_hamt::Error,
>)
    ensures
        r is Ok ==> {
            &&& verifier_entries(*final(map)) == verifier_entries(*old(map)).insert(key@, cap@)
            &&& verifiers_well_formed(*old(map)) ==> verifiers_well_formed(*final(map))
        },
{
    let value = fvm_shared::bigint::BigInt::from_signed_bytes_be(&cap.0.digits);
    map.hamt.set(fvm_ipld_hamt::BytesKey(key), fvm_shared::bigint::bigint_ser::BigIntDe(value))?;
    Ok(())
}

/// `Hamt::delete`, which returns the value that a lookup of the key finds, or nothing
/// where it finds none. From a well-formed map it takes the key out, leaves the other
/// keys as they were and the map well formed. Of a map that is not well formed only the
/// result is stated: the pairs that the deletion folds together may hold keys that no
/// lookup found before. Where it fails, nothing is stated of the map.
#[verifier::external_body]
pub(crate) fn delete_verifier(map: &mut VerifierMap, key: &Vec<u8>) -> (r: Result<
    Option<DataCap>,
    fvm_ipld_hamt::Error,
>)
    ensures
        r matches Ok(removed) ==> {
            &&& bytes_of(removed) == lookup(verifier_entries(*old(map)), key@)
            &&& verifiers_well_formed(*old(map)) ==> {
                &&& verifier_entries(*final(map)) == verifier_entries(*old(map)).remove(key@)
                &&& verifiers_well_formed(*final(map))
            }
        },
{
    let removed = map.hamt.delete(key)?;
    Ok(removed.map(|kv| DataCap(crate::bigint::BigInt { digits: kv.1.0.to_signed_bytes_be() })))
}

/// `Hamt::flush`, which writes the nodes of the map to the store and returns the
/// identifier of the root. The map holds afterwards what it held, and the identifier
/// identifies just those entries. The root of a well-formed map is that of a well-formed
/// map and is fixed by the entries, and the map stays well formed. Where it fails,
/// nothing is stated of the map.
#[verifier::external_body]
pub(crate) fn flush_verifiers(map: &mut VerifierMap) -> (r: Result<Cid, fvm_ipld_hamt::Error>)
    ensures
        r matches Ok(root) ==> {
            &&& verifiers_at(root@) == verifier_entries(*old(map))
            &&& verifier_entries(*final(map)) == verifier_entries(*old(map))
            &&& verifiers_well_formed(*old(map)) ==> {
                &&& is_verifiers_root(root@)
                &&& root@ == verifiers_root(verifier_entries(*old(map)))
                &&& verifiers_well_formed(*final(map))
            }
        },
{
    let cid = map.hamt.flush()?;
    Ok(Cid { bytes: cid.to_bytes() })
}

/// `Hamt::new_with_bit_width`, which returns a map without entries. Such a map is well
/// formed.
#[verifier::external_body]
pub(crate) fn empty_proposal_ids<'a>(store: &'a Store) -> (r: ProposalIdMap<'a>)
    ensures
        proposal_id_entries(r) == (Map::<Seq<u8>, u64>::empty()),
        proposal_ids_well_formed(r),
{
    ProposalIdMap { hamt: fvm_ipld_hamt::Hamt::new_with_bit_width(&store.blocks, fvm_shared::HAMT_BIT_WIDTH) }
}

/// `Hamt::load_with_bit_width`, which reads the root node from the store and fails
/// where the store has no such block or the block is no node. It looks at the shape of
/// the node only. A map that it returns holds the entries that the root identifies, and
/// is well formed where the root is that of a well-formed map. Bytes that are no
/// identifier at all are reported as the same error.
#[verifier::external_body]
pub(crate) fn load_proposal_ids<'a>(root: &Cid, store: &'a Store) -> (r: Result<
    ProposalIdMap<'a>,
    fvm_ipld_hamt::Error,
>)
    ensures
        r matches Ok(map) ==> {
            &&& proposal_id_entries(map) == proposal_ids_at(root@)
            &&& is_proposal_ids_root(root@) ==> proposal_ids_well_formed(map)
        },
{
    let cid = cid::Cid::try_from(root.bytes.as_slice()).map_err(
        |e| fvm_ipld_hamt::Error::from(e.to_string()),
    )?;
    let hamt = fvm_ipld_hamt::Hamt::load_with_bit_width(&cid, &store.blocks, fvm_shared::HAMT_BIT_WIDTH)?;
    Ok(ProposalIdMap { hamt })
}

/// `Hamt::get`, which returns the value under the key, or nothing where the map has no
/// such key. It fails where a node on the way cannot be read from the store.
#[verifier::external_body]
pub(crate) fn get_proposal_id(map: &ProposalIdMap, key: &Vec<u8>) -> (r: Result<
    Option<u64>,
    fvm_ipld_hamt::Error,
>)
    ensures
        r matches Ok(found) ==> found == lookup(proposal_id_entries(*map), key@),
{
    let found = map.hamt.get(key)?;
    Ok(found.copied())
}

/// `Hamt::set`, which puts the value under the key, in place of the one that was there if
/// there was one, and leaves the other keys as they were. A well-formed map stays well
/// formed. Where it fails, nothing is stated of the map.
#[verifier::external_body]
pub(crate) fn set_proposal_id(map: &mut ProposalIdMap, key: Vec<u8>, id: u64) -> (r: Result<
    (),
    fvm_ipld_hamt::Error,
>)
    ensures
        r is Ok ==> {
            &&& proposal_id_entries(*final(map)) == proposal_id_entries(*old(map)).insert(
                key@,
                id,
            )
            &&& proposal_ids_well_formed(*old(map)) ==> proposal_ids_well_formed(*final(map))
        },
{
    map.hamt.set(fvm_ipld_hamt::BytesKey(key), id)?;
    Ok(())
}

/// `Hamt::flush`, which writes the nodes of the map to the store and returns the
/// identifier of the root. The map holds afterwards what it held, and the identifier
/// identifies just those entries. The root of a well-formed map is that of a well-formed
/// map and is fixed by the entries, and the map stays well formed. The root node of a map
/// without entries holds no pair, so its bytes, and with them the root, are those of a
/// map of data caps without entries. Where it fails, nothing is stated of the map.
#[verifier::external_body]
pub(crate) fn flush_proposal_ids(map: &mut ProposalIdMap) -> (r: Result<
    Cid,
    fvm_ipld_hamt::Error,
>)
    ensures
        r matches Ok(root) ==> {
            &&& proposal_ids_at(root@) == proposal_id_entries(*old(map))
            &&& proposal_id_entries(*final(map)) == proposal_id_entries(*old(map))
            &&& proposal_ids_well_formed(*old(map)) ==> {
                &&& is_proposal_ids_root(root@)
                &&& root@ == proposal_ids_root(proposal_id_entries(*old(map)))
                &&& proposal_ids_well_formed(*final(map))
                &&& proposal_id_entries(*old(map)) == Map::<Seq<u8>, u64>::empty() ==> root@
                    == verifiers_root(Map::<Seq<u8>, int>::empty())
            }
        },
{
    let cid = map.hamt.flush()?;
    Ok(Cid { bytes: cid.to_bytes() })
}

} // verus!
