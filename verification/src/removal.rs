//! Taking data cap away from a client with the consent of two verifiers.
//!
//! A removal needs two things that only the host can do: check a signature, and ask the
//! token actor for a balance or tell it to destroy tokens. So it runs in three steps,
//! with the host acting in between:
//!
//! 1. [`State::begin_removal`] examines the request and builds, for each verifier, the
//!    bytes that its signature must cover. The host checks both signatures and asks for
//!    the client's balance.
//! 2. [`State::authorize_removal`] takes the host's findings, settles the amount and
//!    writes the map of counters in which both verifiers' counters have advanced. The
//!    state itself is not touched yet. The host has the tokens destroyed.
//! 3. [`State::complete_removal`] adopts the new counters if the token actor did its part,
//!    and leaves the state as it was if not.
//!
//! The bytes to sign hold the counter that the registry keeps for the verifier and the
//! client, not one that the request brings. A signature that was accepted once is
//! therefore over bytes that are never built again.

use crate::address::{
    is_id_address, lemma_pair_keys_differ, lemma_pair_keys_of_id_addresses_differ, pair_key,
    AddrPairKey, Address,
};
use crate::bigint::truncated_quotient;
use crate::datacap::{DataCap, TokenAmount, TOKEN_PRECISION};
use crate::encoding::{
    cbor_array, cbor_bigint, cbor_bytes, cbor_unsigned, encode_array, encode_bigint, encode_bytes,
    encode_unsigned, lemma_head_is_one_to_one,
};
use crate::error::{ActorError, ExitCode};
use crate::state::{broken_state, State};
use crate::store::{
    flush_proposal_ids, get_proposal_id, get_verifier, is_proposal_ids_root, load_proposal_ids,
    load_verifiers, lookup, proposal_ids_at, proposal_ids_root, set_proposal_id, verifiers_at,
    Cid, Store,
};
use crate::types::{
    RemoveDataCapParams, RemoveDataCapProposal, RemoveDataCapProposalID, RemoveDataCapReturn,
    SIGNATURE_DOMAIN_SEPARATION_REMOVE_DATA_CAP,
};
use vstd::prelude::*;

verus! {

/// The encoding of a proposal: an array of its three fields in their order, which are the
/// client's address as a byte string, the amount as a big integer, and the counter as an
/// unsigned integer. Nothing where the amount is too large to be written.
pub open spec fn proposal_encoding(client: Seq<u8>, amount: int, id: u64) -> Option<Seq<u8>> {
    match cbor_bigint(amount) {
        Some(written) => Some(
            cbor_array(3) + cbor_bytes(client) + written + cbor_unsigned(id),
        ),
        None => None,
    }
}

/// The encoding of a proposal, or the failure to write its amount.
fn encode_proposal(client: &Address, amount: &DataCap, id: u64) -> (r: Result<
    Vec<u8>,
    fvm_ipld_encoding::Error,
>)
    ensures
        match r {
            Ok(bytes) => proposal_encoding(client@, amount@, id) == Some(bytes@),
            Err(_) => proposal_encoding(client@, amount@, id) is None,
        },
{
    let written = encode_bigint(amount)?;
    let mut encoded = encode_array(3);
    let address = client.to_bytes();
    let mut field = encode_bytes(&address);
    encoded.append(&mut field);
    encoded.extend_from_slice(written.as_slice());
    let mut field = encode_unsigned(id);
    encoded.append(&mut field);
    Ok(encoded)
}

/// The counter that is kept under a key: zero where none is kept.
pub open spec fn counter(ids: Map<Seq<u8>, u64>, key: Seq<u8>) -> u64 {
    if ids.contains_key(key) {
        ids[key]
    } else {
        0
    }
}

/// The bytes that a signature must cover to consent to a removal: the words of
/// domain separation, then the encoded proposal.
pub open spec fn signed_payload(client: Seq<u8>, amount: int, id: u64) -> Option<Seq<u8>> {
    match proposal_encoding(client, amount, id) {
        Some(encoded) => Some(SIGNATURE_DOMAIN_SEPARATION_REMOVE_DATA_CAP@ + encoded),
        None => None,
    }
}

/// The lesser of two integers.
pub open spec fn lesser(a: int, b: int) -> int {
    if a <= b {
        a
    } else {
        b
    }
}

/// The data cap that a removal takes away: the amount asked for, or the data cap that
/// the client's balance is worth where that is less. So a removal never takes more than
/// the client holds.
pub fn amount_to_remove(requested: &DataCap, balance: &TokenAmount) -> (r: DataCap)
    ensures
        r@ == lesser(requested@, truncated_quotient(balance@, TOKEN_PRECISION as int)),
{
    let held = DataCap::from_tokens(balance);
    if held < *requested {
        held
    } else {
        requested.clone()
    }
}

/// What the lookups of the two signers come to: a removal that one who is no registered
/// verifier has consented to is an illegal argument.
pub fn check_verifiers(first_registered: bool, second_registered: bool) -> (r: Result<
    (),
    ActorError,
>)
    ensures
        r is Ok <==> first_registered && second_registered,
        r matches Err(e) ==> e.exit_code() == ExitCode::IllegalArgument,
{
    if !first_registered {
        Err(ActorError::illegal_argument("the first signer is no verifier".to_string()))
    } else if !second_registered {
        Err(ActorError::illegal_argument("the second signer is no verifier".to_string()))
    } else {
        Ok(())
    }
}

/// What the host's findings on the two signatures come to: a removal with a signature
/// that was found wrong is forbidden.
pub fn check_signatures(signature_1_valid: bool, signature_2_valid: bool) -> (r: Result<
    (),
    ActorError,
>)
    ensures
        r is Ok <==> signature_1_valid && signature_2_valid,
        r matches Err(e) ==> e.exit_code() == ExitCode::Forbidden,
{
    if signature_1_valid && signature_2_valid {
        Ok(())
    } else {
        Err(ActorError::forbidden("invalid signature for the removal proposal".to_string()))
    }
}

/// The encoded proposal behind the words of domain separation.
pub fn removal_payload(encoded: &Vec<u8>) -> (r: Vec<u8>)
    ensures
        r@ == SIGNATURE_DOMAIN_SEPARATION_REMOVE_DATA_CAP@ + encoded@,
{
    let mut payload: Vec<u8> = Vec::new();
    let mut i: usize = 0;
    while i < 18
        invariant
            i <= 18,
            payload@ == SIGNATURE_DOMAIN_SEPARATION_REMOVE_DATA_CAP@.subrange(0, i as int),
        decreases 18 - i,
    {
        payload.push(SIGNATURE_DOMAIN_SEPARATION_REMOVE_DATA_CAP[i]);
        assert(payload@ =~= SIGNATURE_DOMAIN_SEPARATION_REMOVE_DATA_CAP@.subrange(0, i + 1));
        i += 1;
    }
    assert(payload@ =~= SIGNATURE_DOMAIN_SEPARATION_REMOVE_DATA_CAP@);
    payload.extend_from_slice(encoded.as_slice());
    payload
}

impl RemoveDataCapProposal {
    /// The bytes that a signature must cover to consent to this proposal. A proposal
    /// that cannot be encoded is an illegal argument.
    pub fn signing_payload(&self) -> (r: Result<Vec<u8>, ActorError>)
        ensures
            match r {
                Ok(payload) => signed_payload(
                    self.verified_client@,
                    self.data_cap_amount@,
                    self.removal_proposal_id.0,
                ) == Some(payload@),
                Err(e) => {
                    &&& e.exit_code() == ExitCode::IllegalArgument
                    &&& signed_payload(
                        self.verified_client@,
                        self.data_cap_amount@,
                        self.removal_proposal_id.0,
                    ) is None
                },
            },
    {
        match encode_proposal(
            &self.verified_client,
            &self.data_cap_amount,
            self.removal_proposal_id.0,
        ) {
            Ok(encoded) => Ok(removal_payload(&encoded)),
            Err(_) => Err(
                ActorError::illegal_argument("failed to serialize the proposal".to_string()),
            ),
        }
    }
}

/// What a pending removal holds, as plain values.
pub struct PendingRemovalView {
    pub verified_client: Seq<u8>,
    pub data_cap_amount: int,
    pub verifier_1: Seq<u8>,
    pub verifier_2: Seq<u8>,
    pub proposal_id_1: u64,
    pub proposal_id_2: u64,
    pub payload_1: Seq<u8>,
    pub payload_2: Seq<u8>,
    pub verifiers: Seq<u8>,
    pub proposal_ids: Seq<u8>,
}

/// A removal that was found in order and waits for the host to check the signatures and
/// to report the client's balance.
///
/// It remembers the roots of the state that it was examined in, and is of use in that
/// state only.
#[derive(Debug)]
pub struct PendingRemoval {
    verified_client: Address,
    data_cap_amount: DataCap,
    verifier_1: Address,
    verifier_2: Address,
    proposal_id_1: u64,
    proposal_id_2: u64,
    payload_1: Vec<u8>,
    payload_2: Vec<u8>,
    verifiers: Cid,
    proposal_ids: Cid,
}

impl View for PendingRemoval {
    type V = PendingRemovalView;

    closed spec fn view(&self) -> PendingRemovalView {
        PendingRemovalView {
            verified_client: self.verified_client@,
            data_cap_amount: self.data_cap_amount@,
            verifier_1: self.verifier_1@,
            verifier_2: self.verifier_2@,
            proposal_id_1: self.proposal_id_1,
            proposal_id_2: self.proposal_id_2,
            payload_1: self.payload_1@,
            payload_2: self.payload_2@,
            verifiers: self.verifiers@,
            proposal_ids: self.proposal_ids@,
        }
    }
}

impl PendingRemovalView {
    /// The key of the first verifier's counter.
    pub open spec fn key_1(self) -> Seq<u8> {
        pair_key(self.verifier_1, self.verified_client)
    }

    /// The key of the second verifier's counter.
    pub open spec fn key_2(self) -> Seq<u8> {
        pair_key(self.verifier_2, self.verified_client)
    }

    /// The removal is in order in the state with the roots that it remembers: the two
    /// verifiers differ and are both registered, the amount is positive, the counters
    /// are the ones kept, and each payload is the one to sign.
    pub open spec fn in_order(self) -> bool {
        &&& self.verifier_1 != self.verifier_2
        &&& self.data_cap_amount > 0
        &&& verifiers_at(self.verifiers).contains_key(self.verifier_1)
        &&& verifiers_at(self.verifiers).contains_key(self.verifier_2)
        &&& self.proposal_id_1 == counter(proposal_ids_at(self.proposal_ids), self.key_1())
        &&& self.proposal_id_2 == counter(proposal_ids_at(self.proposal_ids), self.key_2())
        &&& signed_payload(self.verified_client, self.data_cap_amount, self.proposal_id_1)
            == Some(self.payload_1)
        &&& signed_payload(self.verified_client, self.data_cap_amount, self.proposal_id_2)
            == Some(self.payload_2)
    }
}

impl PendingRemoval {
    #[verifier::type_invariant]
    closed spec fn valid(&self) -> bool {
        self@.in_order()
    }

    /// The bytes that the first verifier's signature must cover.
    pub fn payload_1(&self) -> (r: &Vec<u8>)
        ensures
            r@ == self@.payload_1,
            self@.in_order(),
    {
        proof {
            use_type_invariant(self);
        }
        &self.payload_1
    }

    /// The bytes that the second verifier's signature must cover.
    pub fn payload_2(&self) -> (r: &Vec<u8>)
        ensures
            r@ == self@.payload_2,
            self@.in_order(),
    {
        proof {
            use_type_invariant(self);
        }
        &self.payload_2
    }

    /// The client whose balance the host is to report.
    pub fn verified_client(&self) -> (r: &Address)
        ensures
            r@ == self@.verified_client,
    {
        &self.verified_client
    }
}

/// What a staged removal holds, as plain values.
pub struct StagedRemovalView {
    pub verified_client: Seq<u8>,
    pub data_cap_removed: int,
    pub verifier_1: Seq<u8>,
    pub verifier_2: Seq<u8>,
    pub base: Seq<u8>,
    pub proposal_ids: Seq<u8>,
}

impl StagedRemovalView {
    /// The key of the first verifier's counter.
    pub open spec fn key_1(self) -> Seq<u8> {
        pair_key(self.verifier_1, self.verified_client)
    }

    /// The key of the second verifier's counter.
    pub open spec fn key_2(self) -> Seq<u8> {
        pair_key(self.verifier_2, self.verified_client)
    }

    /// The new map of counters is the one at `base` with the two verifiers' counters
    /// advanced by one, and the two verifiers differ. Where the map at `base` is well
    /// formed, so is the new one.
    pub open spec fn in_order(self) -> bool {
        &&& self.verifier_1 != self.verifier_2
        &&& is_proposal_ids_root(self.base) ==> {
            &&& is_proposal_ids_root(self.proposal_ids)
            &&& self.proposal_ids == proposal_ids_root(proposal_ids_at(self.proposal_ids))
        }
        &&& proposal_ids_at(self.proposal_ids) == advanced(
            proposal_ids_at(self.base),
            self.key_1(),
            self.key_2(),
        )
        &&& counter(proposal_ids_at(self.base), self.key_1()) < u64::MAX
        &&& counter(proposal_ids_at(self.base), self.key_2()) < u64::MAX
    }
}

/// The map of counters in which those under the two keys stand one higher, and all
/// others as they were.
pub open spec fn advanced(ids: Map<Seq<u8>, u64>, key_1: Seq<u8>, key_2: Seq<u8>) -> Map<
    Seq<u8>,
    u64,
> {
    ids.insert(key_1, (counter(ids, key_1) + 1) as u64).insert(
        key_2,
        (counter(ids, key_2) + 1) as u64,
    )
}

/// A removal that both verifiers have consented to, with the amount settled and the new
/// map of counters written, which waits for the token actor to destroy the tokens.
#[derive(Debug)]
pub struct StagedRemoval {
    verified_client: Address,
    data_cap_removed: DataCap,
    verifier_1: Address,
    verifier_2: Address,
    base: Cid,
    proposal_ids: Cid,
}

impl View for StagedRemoval {
    type V = StagedRemovalView;

    closed spec fn view(&self) -> StagedRemovalView {
        StagedRemovalView {
            verified_client: self.verified_client@,
            data_cap_removed: self.data_cap_removed@,
            verifier_1: self.verifier_1@,
            verifier_2: self.verifier_2@,
            base: self.base@,
            proposal_ids: self.proposal_ids@,
        }
    }
}

impl StagedRemoval {
    #[verifier::type_invariant]
    closed spec fn valid(&self) -> bool {
        self@.in_order()
    }

    /// The client whose tokens are to be destroyed.
    pub fn verified_client(&self) -> (r: &Address)
        ensures
            r@ == self@.verified_client,
    {
        &self.verified_client
    }

    /// The data cap that is taken away.
    pub fn data_cap_removed(&self) -> (r: &DataCap)
        ensures
            r@ == self@.data_cap_removed,
    {
        &self.data_cap_removed
    }

    /// The tokens that the token actor is to destroy: those that stand for the data cap
    /// taken away. Where nothing is taken away there is nothing to destroy, and the
    /// token actor is not to be called.
    pub fn tokens_to_destroy(&self) -> (r: Option<TokenAmount>)
        ensures
            match r {
                Some(tokens) => self@.data_cap_removed != 0 && tokens@ == self@.data_cap_removed
                    * TOKEN_PRECISION,
                None => self@.data_cap_removed == 0,
            },
    {
        if self.data_cap_removed.is_zero() {
            None
        } else {
            Some(self.data_cap_removed.to_tokens())
        }
    }
}

/// Whether a request is in order in a state: the two verifiers differ and are both
/// registered, the amount is positive, and both proposals can be encoded.
pub open spec fn request_in_order(state: State, params: RemoveDataCapParams) -> bool {
    let client = params.verified_client_to_remove@;
    let amount = params.data_cap_amount_to_remove@;
    let verifier_1 = params.verifier_request_1.verifier@;
    let verifier_2 = params.verifier_request_2.verifier@;
    &&& verifier_1 != verifier_2
    &&& amount > 0
    &&& state.verifier_caps().contains_key(verifier_1)
    &&& state.verifier_caps().contains_key(verifier_2)
    &&& proposal_encoding(
        client,
        amount,
        counter(state.proposal_ids(), pair_key(verifier_1, client)),
    ) is Some
    &&& proposal_encoding(
        client,
        amount,
        counter(state.proposal_ids(), pair_key(verifier_2, client)),
    ) is Some
}

/// The pending removal that a request in order gives in a state.
pub open spec fn pending_of(state: State, params: RemoveDataCapParams) -> PendingRemovalView {
    let client = params.verified_client_to_remove@;
    let amount = params.data_cap_amount_to_remove@;
    let verifier_1 = params.verifier_request_1.verifier@;
    let verifier_2 = params.verifier_request_2.verifier@;
    let id_1 = counter(state.proposal_ids(), pair_key(verifier_1, client));
    let id_2 = counter(state.proposal_ids(), pair_key(verifier_2, client));
    PendingRemovalView {
        verified_client: client,
        data_cap_amount: amount,
        verifier_1,
        verifier_2,
        proposal_id_1: id_1,
        proposal_id_2: id_2,
        payload_1: signed_payload(client, amount, id_1).unwrap(),
        payload_2: signed_payload(client, amount, id_2).unwrap(),
        verifiers: state.verifiers@,
        proposal_ids: state.remove_data_cap_proposal_ids@,
    }
}

/// The counter that a map of counters keeps under a key.
fn current_id(store: &Store, root: &Cid, key: &Vec<u8>) -> (r: Result<u64, ActorError>)
    ensures
        match r {
            Ok(id) => id == counter(proposal_ids_at(root@), key@),
            Err(e) => e.exit_code() == ExitCode::IllegalState,
        },
{
    let proposal_ids = match load_proposal_ids(root, store) {
        Ok(map) => map,
        Err(e) => {
            return Err(broken_state("failed to load proposal ids", &e));
        },
    };
    match get_proposal_id(&proposal_ids, key) {
        Ok(Some(id)) => Ok(id),
        Ok(None) => Ok(0),
        Err(e) => Err(broken_state("failed to get proposal id", &e)),
    }
}

/// Whether an address is registered as a verifier in the map with the given root.
fn is_verifier(store: &Store, root: &Cid, address: &Address) -> (r: Result<bool, ActorError>)
    ensures
        match r {
            Ok(found) => found == verifiers_at(root@).contains_key(address@),
            Err(e) => e.exit_code() == ExitCode::IllegalState,
        },
{
    let verifiers = match load_verifiers(root, store) {
        Ok(map) => map,
        Err(e) => {
            return Err(broken_state("failed to load verifiers", &e));
        },
    };
    let key = address.to_bytes();
    match get_verifier(&verifiers, &key) {
        Ok(Some(_)) => Ok(true),
        Ok(None) => Ok(false),
        Err(e) => Err(broken_state("failed to get verifier", &e)),
    }
}

impl State {
    /// The number of removals that a verifier has consented to for a client, or nothing
    /// where no counter is kept for the two, which counts as zero.
    pub fn get_proposal_id(&self, store: &Store, verifier: &Address, client: &Address) -> (r:
        Result<Option<RemoveDataCapProposalID>, ActorError>)
        ensures
            match r {
                Ok(Some(id)) => lookup(self.proposal_ids(), pair_key(verifier@, client@)) == Some(
                    id.0,
                ),
                Ok(None) => lookup(self.proposal_ids(), pair_key(verifier@, client@)) is None,
                Err(e) => e.exit_code() == ExitCode::IllegalState,
            },
    {
        let proposal_ids = match load_proposal_ids(&self.remove_data_cap_proposal_ids, store) {
            Ok(map) => map,
            Err(e) => {
                return Err(broken_state("failed to load proposal ids", &e));
            },
        };
        let key = AddrPairKey::new(verifier.clone(), client.clone()).to_bytes();
        match get_proposal_id(&proposal_ids, &key) {
            Ok(Some(id)) => Ok(Some(RemoveDataCapProposalID(id))),
            Ok(None) => Ok(None),
            Err(e) => Err(broken_state("failed to get proposal id", &e)),
        }
    }

    /// Examines a request to take data cap away from a client.
    ///
    /// The request is an illegal argument where both consents come from one verifier,
    /// where the amount is not positive, where one of the two is no registered
    /// verifier, and where a proposal cannot be encoded. The first two are found
    /// without reading the store. Where the request is in order, the result holds for
    /// each verifier the bytes that its signature must cover, built with the counter
    /// that the state keeps for it and the client.
    pub fn begin_removal(&self, store: &Store, params: &RemoveDataCapParams) -> (r: Result<
        PendingRemoval,
        ActorError,
    >)
        ensures
            params.verifier_request_1.verifier@ == params.verifier_request_2.verifier@
                || params.data_cap_amount_to_remove@ <= 0 ==> (r matches Err(e) && e.exit_code()
                == ExitCode::IllegalArgument),
            match r {
                Ok(pending) => request_in_order(*self, *params) && pending@ == pending_of(
                    *self,
                    *params,
                ) && pending@.in_order(),
                Err(e) => {
                    &&& e.exit_code() == ExitCode::IllegalArgument || e.exit_code()
                        == ExitCode::IllegalState
                    &&& e.exit_code() == ExitCode::IllegalArgument ==> !request_in_order(
                        *self,
                        *params,
                    )
                },
            },
    {
        let client = &params.verified_client_to_remove;
        let amount = &params.data_cap_amount_to_remove;
        let verifier_1 = &params.verifier_request_1.verifier;
        let verifier_2 = &params.verifier_request_2.verifier;
        if verifier_1 == verifier_2 {
            return Err(
                ActorError::illegal_argument(
                    "need two different verifiers to send remove datacap request".to_string(),
                ),
            );
        }
        if !amount.is_positive() {
            return Err(
                ActorError::illegal_argument(
                    "the amount of data cap to remove must be positive".to_string(),
                ),
            );
        }
        let first_registered = is_verifier(store, &self.verifiers, verifier_1)?;
        let second_registered = is_verifier(store, &self.verifiers, verifier_2)?;
        check_verifiers(first_registered, second_registered)?;
        let key_1 = AddrPairKey::new(verifier_1.clone(), client.clone()).to_bytes();
        let key_2 = AddrPairKey::new(verifier_2.clone(), client.clone()).to_bytes();
        let proposal_id_1 = current_id(store, &self.remove_data_cap_proposal_ids, &key_1)?;
        let proposal_id_2 = current_id(store, &self.remove_data_cap_proposal_ids, &key_2)?;
        let payload_1 = RemoveDataCapProposal {
            verified_client: client.clone(),
            data_cap_amount: amount.clone(),
            removal_proposal_id: RemoveDataCapProposalID(proposal_id_1),
        }.signing_payload()?;
        let payload_2 = RemoveDataCapProposal {
            verified_client: client.clone(),
            data_cap_amount: amount.clone(),
            removal_proposal_id: RemoveDataCapProposalID(proposal_id_2),
        }.signing_payload()?;
        Ok(
            PendingRemoval {
                verified_client: client.clone(),
                data_cap_amount: amount.clone(),
                verifier_1: verifier_1.clone(),
                verifier_2: verifier_2.clone(),
                proposal_id_1,
                proposal_id_2,
                payload_1,
                payload_2,
                verifiers: self.verifiers.clone(),
                proposal_ids: self.remove_data_cap_proposal_ids.clone(),
            },
        )
    }

    /// Settles a removal once the host has checked the signatures and asked for the
    /// client's balance.
    ///
    /// Where one of the signatures was found wrong the removal is forbidden, whatever
    /// else holds. Otherwise the amount to take away is the amount asked for, or the data
    /// cap that the balance is worth where that is less, and both verifiers' counters
    /// advance by one in a new map of counters. The state is not changed: the new map
    /// is adopted by [`State::complete_removal`].
    ///
    /// It is an illegal state where the store fails, where the state is no longer the
    /// one that the removal was examined in, and where a counter cannot advance.
    pub fn authorize_removal(
        &self,
        store: &Store,
        pending: &PendingRemoval,
        signature_1_valid: bool,
        signature_2_valid: bool,
        balance: &TokenAmount,
    ) -> (r: Result<StagedRemoval, ActorError>)
        ensures
            !(signature_1_valid && signature_2_valid) ==> (r matches Err(e) && e.exit_code()
                == ExitCode::Forbidden),
            match r {
                Ok(staged) => {
                    &&& signature_1_valid && signature_2_valid
                    &&& pending@.in_order()
                    &&& pending@.verifiers == self.verifiers@
                    &&& pending@.proposal_ids == self.remove_data_cap_proposal_ids@
                    &&& staged@.in_order()
                    &&& staged@.verified_client == pending@.verified_client
                    &&& staged@.verifier_1 == pending@.verifier_1
                    &&& staged@.verifier_2 == pending@.verifier_2
                    &&& staged@.base == self.remove_data_cap_proposal_ids@
                    &&& staged@.data_cap_removed == lesser(
                        pending@.data_cap_amount,
                        truncated_quotient(balance@, TOKEN_PRECISION as int),
                    )
                },
                Err(e) => {
                    &&& e.exit_code() == ExitCode::Forbidden || e.exit_code()
                        == ExitCode::IllegalState
                    &&& e.exit_code() == ExitCode::Forbidden <==> !(signature_1_valid
                        && signature_2_valid)
                },
            },
    {
        proof {
            use_type_invariant(pending);
        }
        check_signatures(signature_1_valid, signature_2_valid)?;
        if self.verifiers != pending.verifiers || self.remove_data_cap_proposal_ids
            != pending.proposal_ids {
            return Err(
                ActorError::illegal_state(
                    "the state has changed since the removal was examined".to_string(),
                ),
            );
        }
        if pending.proposal_id_1 == u64::MAX || pending.proposal_id_2 == u64::MAX {
            return Err(ActorError::illegal_state("a proposal id cannot advance".to_string()));
        }
        let data_cap_removed = amount_to_remove(&pending.data_cap_amount, balance);
        let key_1 = AddrPairKey::new(
            pending.verifier_1.clone(),
            pending.verified_client.clone(),
        ).to_bytes();
        let key_2 = AddrPairKey::new(
            pending.verifier_2.clone(),
            pending.verified_client.clone(),
        ).to_bytes();
        let mut proposal_ids = match load_proposal_ids(&self.remove_data_cap_proposal_ids, store) {
            Ok(map) => map,
            Err(e) => {
                return Err(broken_state("failed to load proposal ids", &e));
            },
        };
        let ghost before = proposal_ids_at(self.remove_data_cap_proposal_ids@);
        proof {
            lemma_pair_keys_differ(
                pending@.verifier_1,
                pending@.verifier_2,
                pending@.verified_client,
            );
        }
        match set_proposal_id(&mut proposal_ids, key_1, pending.proposal_id_1 + 1) {
            Ok(_) => {},
            Err(e) => {
                return Err(broken_state("failed to update proposal id", &e));
            },
        }
        match set_proposal_id(&mut proposal_ids, key_2, pending.proposal_id_2 + 1) {
            Ok(_) => {},
            Err(e) => {
                return Err(broken_state("failed to update proposal id", &e));
            },
        }
        match flush_proposal_ids(&mut proposal_ids) {
            Ok(root) => {
                proof {
                    let key_1 = pending@.key_1();
                    let key_2 = pending@.key_2();
                    assert(counter(before.insert(key_1, (pending.proposal_id_1 + 1) as u64), key_2)
                        == counter(before, key_2));
                    assert(proposal_ids_at(root@) == advanced(before, key_1, key_2));
                }
                Ok(
                    StagedRemoval {
                        verified_client: pending.verified_client.clone(),
                        data_cap_removed,
                        verifier_1: pending.verifier_1.clone(),
                        verifier_2: pending.verifier_2.clone(),
                        base: self.remove_data_cap_proposal_ids.clone(),
                        proposal_ids: root,
                    },
                )
            },
            Err(e) => Err(broken_state("failed to flush proposal ids", &e)),
        }
    }

    /// Ends a removal once the host has had the tokens destroyed, or has found that there
    /// were none to destroy.
    ///
    /// Where the token actor failed, its failure is the result and the state stays as it
    /// was. Otherwise the state adopts the new map of counters, in which the counter of
    /// each of the two verifiers for the client stands one higher, and the result says
    /// what was taken away. It is an illegal state where the counters of the state are no
    /// longer those that the removal was settled on.
    pub fn complete_removal(
        &mut self,
        staged: StagedRemoval,
        token_call: Result<(), ActorError>,
    ) -> (r: Result<RemoveDataCapReturn, ActorError>)
        ensures
            r is Ok <==> token_call is Ok && staged@.base == old(
                self,
            ).remove_data_cap_proposal_ids@,
            match r {
                Ok(done) => {
                    &&& token_call is Ok
                    &&& staged@.in_order()
                    &&& staged@.base == old(self).remove_data_cap_proposal_ids@
                    &&& done.verified_client@ == staged@.verified_client
                    &&& done.data_cap_removed@ == staged@.data_cap_removed
                    &&& final(self).proposal_ids() == advanced(
                        old(self).proposal_ids(),
                        staged@.key_1(),
                        staged@.key_2(),
                    )
                    &&& old(self).well_formed() ==> final(self).well_formed()
                    &&& final(self).root_key == old(self).root_key
                    &&& final(self).token == old(self).token
                    &&& final(self).verifiers == old(self).verifiers
                },
                Err(e) => {
                    &&& *final(self) == *old(self)
                    &&& token_call matches Err(cause) ==> e == cause
                    &&& token_call is Ok ==> e.exit_code() == ExitCode::IllegalState
                },
            },
    {
        proof {
            use_type_invariant(&staged);
        }
        match token_call {
            Ok(_) => {},
            Err(cause) => {
                return Err(cause);
            },
        }
        if self.remove_data_cap_proposal_ids != staged.base {
            return Err(
                ActorError::illegal_state(
                    "the state has changed since the removal was settled".to_string(),
                ),
            );
        }
        self.remove_data_cap_proposal_ids = staged.proposal_ids;
        Ok(
            RemoveDataCapReturn {
                verified_client: staged.verified_client,
                data_cap_removed: staged.data_cap_removed,
            },
        )
    }
}

/// The bytes to sign hold the counter: for one client and one amount, two different
/// counters give different bytes. So a signature over the bytes that were built with one
/// counter is none over the bytes that are built once the counter has advanced.
pub proof fn lemma_payload_holds_counter(client: Seq<u8>, amount: int, id_a: u64, id_b: u64)
    requires
        id_a != id_b,
        signed_payload(client, amount, id_a) is Some,
    ensures
        signed_payload(client, amount, id_b) is Some,
        signed_payload(client, amount, id_a) != signed_payload(client, amount, id_b),
{
    let written = cbor_bigint(amount).unwrap();
    let front = SIGNATURE_DOMAIN_SEPARATION_REMOVE_DATA_CAP@ + (cbor_array(3) + cbor_bytes(client)
        + written);
    let payload_a = signed_payload(client, amount, id_a).unwrap();
    let payload_b = signed_payload(client, amount, id_b).unwrap();
    assert(payload_a =~= front + cbor_unsigned(id_a));
    assert(payload_b =~= front + cbor_unsigned(id_b));
    if payload_a == payload_b {
        assert(payload_a.skip(front.len() as int) =~= cbor_unsigned(id_a));
        assert(payload_b.skip(front.len() as int) =~= cbor_unsigned(id_b));
        lemma_head_is_one_to_one(0, id_a, id_b);
    }
}

/// What a removal takes away is never more than was asked for nor more than the balance
/// is worth; the tokens that stand for it are covered by a balance that is not negative.
pub proof fn lemma_amount_is_covered(requested: int, balance: int)
    requires
        requested > 0,
        balance >= 0,
    ensures
        ({
            let amount = lesser(requested, truncated_quotient(balance, TOKEN_PRECISION as int));
            &&& 0 <= amount <= requested
            &&& 0 <= amount * TOKEN_PRECISION <= balance
        }),
{
    let held = truncated_quotient(balance, TOKEN_PRECISION as int);
    assert(0 <= held * TOKEN_PRECISION <= balance);
}

/// A removal that asks for more than the balance is worth takes what the balance is
/// worth: the tokens that stand for it leave less than the worth of one byte.
pub proof fn lemma_capped_at_the_balance(requested: int, balance: int)
    requires
        balance >= 0,
        requested > truncated_quotient(balance, TOKEN_PRECISION as int),
    ensures
        ({
            let amount = lesser(requested, truncated_quotient(balance, TOKEN_PRECISION as int));
            &&& amount == truncated_quotient(balance, TOKEN_PRECISION as int)
            &&& 0 <= balance - amount * TOKEN_PRECISION < TOKEN_PRECISION
        }),
{
}

/// After a removal the counters of its two verifiers for its client are kept in the map,
/// each one higher than it stood; where none was kept, which counts as zero, it is one.
pub proof fn lemma_advanced_counters_are_kept(
    ids: Map<Seq<u8>, u64>,
    verifier_1: Seq<u8>,
    verifier_2: Seq<u8>,
    client: Seq<u8>,
)
    requires
        verifier_1 != verifier_2,
        counter(ids, pair_key(verifier_1, client)) < u64::MAX,
        counter(ids, pair_key(verifier_2, client)) < u64::MAX,
    ensures
        ({
            let key_1 = pair_key(verifier_1, client);
            let key_2 = pair_key(verifier_2, client);
            let after = advanced(ids, key_1, key_2);
            &&& lookup(after, key_1) == Some((counter(ids, key_1) + 1) as u64)
            &&& lookup(after, key_2) == Some((counter(ids, key_2) + 1) as u64)
            &&& !ids.contains_key(key_1) ==> lookup(after, key_1) == Some(1u64)
            &&& !ids.contains_key(key_2) ==> lookup(after, key_2) == Some(1u64)
            &&& forall|key: Seq<u8>|
                key != key_1 && key != key_2 ==> lookup(after, key) == lookup(ids, key)
        }),
{
    lemma_pair_keys_differ(verifier_1, verifier_2, client);
}

/// Advancing the counters of two verifiers for one client leaves each of the two one
/// higher than it was, and every other counter as it was.
pub proof fn lemma_both_counters_advance(
    ids: Map<Seq<u8>, u64>,
    verifier_1: Seq<u8>,
    verifier_2: Seq<u8>,
    client: Seq<u8>,
)
    requires
        verifier_1 != verifier_2,
        counter(ids, pair_key(verifier_1, client)) < u64::MAX,
        counter(ids, pair_key(verifier_2, client)) < u64::MAX,
    ensures
        ({
            let after = advanced(ids, pair_key(verifier_1, client), pair_key(verifier_2, client));
            &&& counter(after, pair_key(verifier_1, client)) == counter(
                ids,
                pair_key(verifier_1, client),
            ) + 1
            &&& counter(after, pair_key(verifier_2, client)) == counter(
                ids,
                pair_key(verifier_2, client),
            ) + 1
            &&& forall|key: Seq<u8>|
                key != pair_key(verifier_1, client) && key != pair_key(verifier_2, client)
                    ==> counter(after, key) == counter(ids, key)
        }),
{
    lemma_pair_keys_differ(verifier_1, verifier_2, client);
}

/// Where verifiers are named by their numbers, a removal touches the counters of its two
/// verifiers for its client and no other: the counter of any other pair of a verifier and
/// a client, be it another verifier or another client, stays as it was.
pub proof fn lemma_other_pairs_keep_their_counters(
    ids: Map<Seq<u8>, u64>,
    verifier_1: Seq<u8>,
    verifier_2: Seq<u8>,
    client: Seq<u8>,
    other_verifier: Seq<u8>,
    other_client: Seq<u8>,
)
    requires
        is_id_address(verifier_1),
        is_id_address(verifier_2),
        is_id_address(other_verifier),
        other_verifier != verifier_1 || other_client != client,
        other_verifier != verifier_2 || other_client != client,
    ensures
        counter(
            advanced(ids, pair_key(verifier_1, client), pair_key(verifier_2, client)),
            pair_key(other_verifier, other_client),
        ) == counter(ids, pair_key(other_verifier, other_client)),
{
    lemma_pair_keys_of_id_addresses_differ(other_verifier, other_client, verifier_1, client);
    lemma_pair_keys_of_id_addresses_differ(other_verifier, other_client, verifier_2, client);
}

/// The counter of one verifier for a client does not depend on the counter of another
/// verifier for the same client: setting the one leaves the other as it was.
pub proof fn lemma_counters_are_independent(
    ids: Map<Seq<u8>, u64>,
    verifier_1: Seq<u8>,
    verifier_2: Seq<u8>,
    client: Seq<u8>,
    id: u64,
)
    requires
        verifier_1 != verifier_2,
    ensures
        counter(ids.insert(pair_key(verifier_1, client), id), pair_key(verifier_2, client))
            == counter(ids, pair_key(verifier_2, client)),
{
    lemma_pair_keys_differ(verifier_1, verifier_2, client);
}

} // verus!
