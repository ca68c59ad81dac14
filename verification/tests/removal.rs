use fil_actor_verifreg::{
    amount_to_remove, check_signatures, check_verifiers, removal_payload, ActorError, AddVerifierClientParams, AddrPairKey, Address, BigInt, DataCap,
    ExitCode, RemoveDataCapParams, RemoveDataCapProposal, RemoveDataCapProposalID,
    RemoveDataCapRequest, RemoveDataCapReturn, Signature, SignatureType, State, Store, TokenAmount,
    SIGNATURE_DOMAIN_SEPARATION_REMOVE_DATA_CAP,
};
use std::collections::HashMap;
use std::ops::Sub;

fn id_address(id: u64) -> Address {
    Address::from_bytes(fvm_shared::address::Address::new_id(id).to_bytes())
}

fn outside(value: &BigInt) -> fvm_shared::bigint::BigInt {
    fvm_shared::bigint::BigInt::from_signed_bytes_be(&value.to_signed_bytes_be())
}

fn inside(value: &fvm_shared::bigint::BigInt) -> BigInt {
    BigInt::from_signed_bytes_be(value.to_signed_bytes_be())
}

/// A token actor that keeps balances in memory.
struct Ledger {
    balances: HashMap<Vec<u8>, fvm_shared::bigint::BigInt>,
    destroyed: Vec<(Address, TokenAmount)>,
    fail: bool,
}

impl Ledger {
    fn new() -> Ledger {
        Ledger { balances: HashMap::new(), destroyed: Vec::new(), fail: false }
    }

    fn mint(&mut self, to: &Address, amount: &TokenAmount) {
        *self.balances.entry(to.to_bytes()).or_default() += outside(amount.atto());
    }

    fn balance(&self, owner: &Address) -> TokenAmount {
        let balance = self.balances.get(&owner.to_bytes()).cloned().unwrap_or_default();
        TokenAmount::from_atto(inside(&balance))
    }

    fn destroy(&mut self, owner: &Address, amount: &TokenAmount) -> Result<(), ActorError> {
        let amount_atto = outside(amount.atto());
        let balance = self.balances.entry(owner.to_bytes()).or_default();
        if self.fail || amount_atto > *balance || amount_atto < fvm_shared::bigint::BigInt::from(0)
        {
            return Err(ActorError::call_failed(format!("cannot destroy {:?}", amount)));
        }
        *balance -= amount_atto;
        self.destroyed.push((owner.clone(), amount.clone()));
        Ok(())
    }
}

/// A signature is good when its bytes are the bytes that it is to cover.
fn signature_is_valid(request: &RemoveDataCapRequest, payload: &[u8]) -> bool {
    request.signature.bytes == payload
}

/// Runs a removal against the ledger, as a host would.
fn remove(
    state: &mut State,
    store: &Store,
    ledger: &mut Ledger,
    params: &RemoveDataCapParams,
) -> Result<RemoveDataCapReturn, ActorError> {
    let pending = state.begin_removal(store, params)?;
    let valid_1 = signature_is_valid(&params.verifier_request_1, pending.payload_1());
    let valid_2 = signature_is_valid(&params.verifier_request_2, pending.payload_2());
    check_signatures(valid_1, valid_2)?;
    let balance = ledger.balance(pending.verified_client());
    let staged = state.authorize_removal(store, &pending, valid_1, valid_2, &balance)?;
    let token_call = match staged.tokens_to_destroy() {
        Some(tokens) => ledger.destroy(staged.verified_client(), &tokens),
        None => Ok(()),
    };
    state.complete_removal(staged, token_call)
}

fn sign(client: &Address, amount: &DataCap, id: u64) -> Signature {
    let proposal = RemoveDataCapProposal {
        verified_client: client.clone(),
        data_cap_amount: amount.clone(),
        removal_proposal_id: RemoveDataCapProposalID(id),
    };
    Signature { sig_type: SignatureType::Secp256k1, bytes: proposal.signing_payload().unwrap() }
}

fn request(
    client: &Address,
    amount: &DataCap,
    verifier_1: &Address,
    id_1: u64,
    verifier_2: &Address,
    id_2: u64,
) -> RemoveDataCapParams {
    RemoveDataCapParams {
        verified_client_to_remove: client.clone(),
        data_cap_amount_to_remove: amount.clone(),
        verifier_request_1: RemoveDataCapRequest {
            verifier: verifier_1.clone(),
            signature: sign(client, amount, id_1),
        },
        verifier_request_2: RemoveDataCapRequest {
            verifier: verifier_2.clone(),
            signature: sign(client, amount, id_2),
        },
    }
}

fn proposal_id(state: &State, store: &Store, verifier: &Address, client: &Address) -> Option<u64> {
    state.get_proposal_id(store, verifier, client).unwrap().map(|id| id.0)
}

struct World {
    store: Store,
    state: State,
    ledger: Ledger,
    verifier_1: Address,
    verifier_2: Address,
    client: Address,
}

/// Two verifiers with a cap of 2 MiB each, and a client that holds `balance` bytes of
/// data cap.
fn world(balance: i32) -> World {
    let store = Store::new();
    let mut state = State::new(&store, id_address(80), id_address(7)).unwrap();
    let (verifier_1, verifier_2, client) = (id_address(101), id_address(102), id_address(103));
    let allowance = DataCap::from(2 * 1048576);
    state.put_verifier(&store, &verifier_1, &allowance).unwrap();
    state.put_verifier(&store, &verifier_2, &allowance).unwrap();
    let mut ledger = Ledger::new();
    ledger.mint(&client, &DataCap::from(balance).to_tokens());
    World { store, state, ledger, verifier_1, verifier_2, client }
}

#[test]
fn remove_datacap_simple_successful_path() {
    let store = Store::new();
    let mut v_st = State::new(&store, id_address(80), id_address(7)).unwrap();
    let mut ledger = Ledger::new();
    let (verifier1, verifier2, verified_client) = (id_address(101), id_address(102), id_address(103));

    let verifier1_id_addr = verifier1.clone();
    let verifier2_id_addr = verifier2.clone();
    let verified_client_id_addr = verified_client.clone();
    let verifier_allowance = DataCap::from(BigInt::from_i64(2 * 1048576));
    let allowance_to_remove = DataCap::from(BigInt::from_i64(1048576));

    // register verifier1 and verifier2
    v_st.put_verifier(&store, &verifier1, &verifier_allowance).unwrap();
    v_st.put_verifier(&store, &verifier2, &verifier_allowance).unwrap();

    // register the verified client: verifier1 grants it all that it may grant
    let add_verified_client_params = AddVerifierClientParams {
        address: verified_client.clone(),
        allowance: verifier_allowance.clone(),
    };
    let granted = v_st.get_verifier_cap(&store, &verifier1).unwrap().unwrap();
    v_st.put_verifier(&store, &verifier1, &granted.sub(&add_verified_client_params.allowance))
        .unwrap();
    ledger.mint(&add_verified_client_params.address, &verifier_allowance.to_tokens());

    // state checks on the 2 verifiers and the client
    let verifier1_data_cap = v_st.get_verifier_cap(&store, &verifier1_id_addr).unwrap().unwrap();
    assert_eq!(DataCap::zero(), verifier1_data_cap);

    let verifier2_data_cap = v_st.get_verifier_cap(&store, &verifier2_id_addr).unwrap().unwrap();
    assert_eq!(verifier_allowance, verifier2_data_cap);

    let balance = ledger.balance(&verified_client_id_addr);
    assert_eq!(balance, verifier_allowance.to_tokens());

    assert!(v_st
        .get_proposal_id(&store, &verifier1_id_addr, &verified_client_id_addr)
        .unwrap()
        .is_none());

    assert!(v_st
        .get_proposal_id(&store, &verifier2_id_addr, &verified_client_id_addr)
        .unwrap()
        .is_none());

    // remove half the client's allowance
    let mut verifier1_proposal = RemoveDataCapProposal {
        verified_client: verified_client_id_addr.clone(),
        data_cap_amount: allowance_to_remove.clone(),
        removal_proposal_id: RemoveDataCapProposalID(0),
    };

    let mut verifier1_payload = verifier1_proposal.signing_payload().unwrap();

    let mut verifier2_proposal = RemoveDataCapProposal {
        verified_client: verified_client_id_addr.clone(),
        data_cap_amount: allowance_to_remove.clone(),
        removal_proposal_id: RemoveDataCapProposalID(0),
    };

    let mut verifier2_payload = verifier2_proposal.signing_payload().unwrap();
    assert!(verifier2_payload.starts_with(&SIGNATURE_DOMAIN_SEPARATION_REMOVE_DATA_CAP));

    let mut remove_datacap_params = RemoveDataCapParams {
        verified_client_to_remove: verified_client_id_addr.clone(),
        data_cap_amount_to_remove: allowance_to_remove.clone(),
        verifier_request_1: RemoveDataCapRequest {
            verifier: verifier1_id_addr.clone(),
            signature: Signature { sig_type: SignatureType::Secp256k1, bytes: verifier1_payload },
        },
        verifier_request_2: RemoveDataCapRequest {
            verifier: verifier2_id_addr.clone(),
            signature: Signature { sig_type: SignatureType::Secp256k1, bytes: verifier2_payload },
        },
    };

    let remove_datacap_ret: RemoveDataCapReturn =
        remove(&mut v_st, &store, &mut ledger, &remove_datacap_params).unwrap();

    assert_eq!(verified_client_id_addr, remove_datacap_ret.verified_client);
    assert_eq!(allowance_to_remove, remove_datacap_ret.data_cap_removed);

    // confirm client's allowance has fallen by half
    let balance = ledger.balance(&verified_client_id_addr);
    assert_eq!(balance, verifier_allowance.clone().sub(&allowance_to_remove).to_tokens());

    // confirm proposalIds has changed as expected
    let verifier1_proposal_id: RemoveDataCapProposalID = v_st
        .get_proposal_id(&store, &verifier1_id_addr, &verified_client_id_addr)
        .unwrap()
        .unwrap();

    assert_eq!(1u64, verifier1_proposal_id.0);

    let verifier2_proposal_id: RemoveDataCapProposalID = v_st
        .get_proposal_id(&store, &verifier2_id_addr, &verified_client_id_addr)
        .unwrap()
        .unwrap();

    assert_eq!(1u64, verifier2_proposal_id.0);

    // remove the second half of the client's allowance

    verifier1_proposal = RemoveDataCapProposal {
        verified_client: verified_client_id_addr.clone(),
        data_cap_amount: allowance_to_remove.clone(),
        removal_proposal_id: verifier1_proposal_id.clone(),
    };

    verifier1_payload = verifier1_proposal.signing_payload().unwrap();

    verifier2_proposal = RemoveDataCapProposal {
        verified_client: verified_client_id_addr.clone(),
        data_cap_amount: allowance_to_remove.clone(),
        removal_proposal_id: verifier2_proposal_id.clone(),
    };

    verifier2_payload = verifier2_proposal.signing_payload().unwrap();

    remove_datacap_params = RemoveDataCapParams {
        verified_client_to_remove: verified_client_id_addr.clone(),
        data_cap_amount_to_remove: allowance_to_remove.clone(),
        verifier_request_1: RemoveDataCapRequest {
            verifier: verifier1_id_addr.clone(),
            signature: Signature { sig_type: SignatureType::Secp256k1, bytes: verifier1_payload },
        },
        verifier_request_2: RemoveDataCapRequest {
            verifier: verifier2_id_addr.clone(),
            signature: Signature { sig_type: SignatureType::Secp256k1, bytes: verifier2_payload },
        },
    };

    let remove_datacap_ret: RemoveDataCapReturn =
        remove(&mut v_st, &store, &mut ledger, &remove_datacap_params).unwrap();

    assert_eq!(verified_client_id_addr, remove_datacap_ret.verified_client);
    assert_eq!(allowance_to_remove, remove_datacap_ret.data_cap_removed);

    // confirm client has no balance
    let balance = ledger.balance(&verified_client_id_addr);
    assert_eq!(balance, DataCap::zero().to_tokens());
    assert!(balance.is_zero());

    // confirm proposalIds has changed as expected
    let verifier1_proposal_id: RemoveDataCapProposalID = v_st
        .get_proposal_id(&store, &verifier1_id_addr, &verified_client_id_addr)
        .unwrap()
        .unwrap();

    assert_eq!(2u64, verifier1_proposal_id.0);

    let verifier2_proposal_id: RemoveDataCapProposalID = v_st
        .get_proposal_id(&store, &verifier2_id_addr, &verified_client_id_addr)
        .unwrap()
        .unwrap();

    assert_eq!(2u64, verifier2_proposal_id.0);

    // the verifiers are as they were
    assert_eq!(DataCap::zero(), v_st.get_verifier_cap(&store, &verifier1_id_addr).unwrap().unwrap());
    assert_eq!(
        verifier_allowance,
        v_st.get_verifier_cap(&store, &verifier2_id_addr).unwrap().unwrap()
    );
    assert_eq!(ledger.destroyed.len(), 2);
    assert_eq!(ledger.destroyed[0], (verified_client.clone(), allowance_to_remove.to_tokens()));
}

#[test]
fn payload_is_the_tag_and_the_encoded_proposal() {
    let proposal = RemoveDataCapProposal {
        verified_client: id_address(101),
        data_cap_amount: DataCap::from(1048576),
        removal_proposal_id: RemoveDataCapProposalID(0),
    };
    let payload = proposal.signing_payload().unwrap();
    let mut expected = b"fil_removedatacap:".to_vec();
    // An array of three: the address, the amount with its sign, the counter.
    expected.extend([0x83, 0x42, 0x00, 0x65, 0x44, 0x00, 0x10, 0x00, 0x00, 0x00]);
    assert_eq!(payload, expected);

    let amount = fvm_shared::bigint::BigInt::from(1048576);
    let encoded = fvm_ipld_encoding::to_vec(&(
        fvm_shared::address::Address::new_id(101),
        fvm_shared::bigint::bigint_ser::BigIntSer(&amount),
        0u64,
    ))
    .unwrap();
    assert_eq!(payload, removal_payload(&encoded));
}

#[test]
fn payload_holds_the_counter_and_a_negative_amount() {
    let proposal = RemoveDataCapProposal {
        verified_client: id_address(1),
        data_cap_amount: DataCap::from(-2),
        removal_proposal_id: RemoveDataCapProposalID(300),
    };
    let mut expected = SIGNATURE_DOMAIN_SEPARATION_REMOVE_DATA_CAP.to_vec();
    expected.extend([0x83, 0x42, 0x00, 0x01, 0x42, 0x01, 0x02, 0x19, 0x01, 0x2c]);
    assert_eq!(proposal.signing_payload().unwrap(), expected);
}

#[test]
fn domain_separation_tag_is_exact() {
    assert_eq!(&SIGNATURE_DOMAIN_SEPARATION_REMOVE_DATA_CAP[..], b"fil_removedatacap:");
    assert_eq!(removal_payload(&vec![]), b"fil_removedatacap:".to_vec());
    assert_eq!(removal_payload(&vec![1, 2]), b"fil_removedatacap:\x01\x02".to_vec());
}

#[test]
fn a_proposal_too_large_to_encode_is_an_illegal_argument() {
    let huge = fvm_shared::bigint::BigInt::from(1) << (128 * 8);
    let proposal = RemoveDataCapProposal {
        verified_client: id_address(101),
        data_cap_amount: DataCap::from(inside(&huge)),
        removal_proposal_id: RemoveDataCapProposalID(0),
    };
    let error = proposal.signing_payload().unwrap_err();
    assert_eq!(error.exit_code(), ExitCode::IllegalArgument);

    let mut w = world(2 * 1048576);
    let mut params = request(&w.client, &DataCap::from(1), &w.verifier_1, 0, &w.verifier_2, 0);
    params.data_cap_amount_to_remove = DataCap::from(inside(&huge));
    let error = remove(&mut w.state, &w.store, &mut w.ledger, &params).unwrap_err();
    assert_eq!(error.exit_code(), ExitCode::IllegalArgument);
}

#[test]
fn stale_counter_is_forbidden_and_changes_nothing() {
    let mut w = world(2 * 1048576);
    let amount = DataCap::from(1048576);
    let params = request(&w.client, &amount, &w.verifier_1, 0, &w.verifier_2, 0);
    remove(&mut w.state, &w.store, &mut w.ledger, &params).unwrap();
    let root = w.state.remove_data_cap_proposal_ids.clone();

    // The same request again: it is signed over counters that have advanced.
    let error = remove(&mut w.state, &w.store, &mut w.ledger, &params).unwrap_err();
    assert_eq!(error.exit_code(), ExitCode::Forbidden);
    assert_eq!(w.state.remove_data_cap_proposal_ids, root);
    assert_eq!(proposal_id(&w.state, &w.store, &w.verifier_1, &w.client), Some(1));
    assert_eq!(proposal_id(&w.state, &w.store, &w.verifier_2, &w.client), Some(1));
    assert_eq!(w.ledger.balance(&w.client), DataCap::from(1048576).to_tokens());

    // One fresh signature is not enough.
    let half = request(&w.client, &amount, &w.verifier_1, 1, &w.verifier_2, 0);
    let error = remove(&mut w.state, &w.store, &mut w.ledger, &half).unwrap_err();
    assert_eq!(error.exit_code(), ExitCode::Forbidden);
    let half = request(&w.client, &amount, &w.verifier_1, 0, &w.verifier_2, 1);
    let error = remove(&mut w.state, &w.store, &mut w.ledger, &half).unwrap_err();
    assert_eq!(error.exit_code(), ExitCode::Forbidden);
    assert_eq!(w.state.remove_data_cap_proposal_ids, root);
    assert_eq!(w.ledger.balance(&w.client), DataCap::from(1048576).to_tokens());
}

#[test]
fn a_signature_over_other_contents_is_forbidden() {
    let mut w = world(2 * 1048576);
    let root = w.state.remove_data_cap_proposal_ids.clone();
    let mut params =
        request(&w.client, &DataCap::from(1048576), &w.verifier_1, 0, &w.verifier_2, 0);
    // Signed for one amount, asked for another.
    params.data_cap_amount_to_remove = DataCap::from(2 * 1048576);
    let error = remove(&mut w.state, &w.store, &mut w.ledger, &params).unwrap_err();
    assert_eq!(error.exit_code(), ExitCode::Forbidden);
    // Signed without the words of domain separation.
    let mut params =
        request(&w.client, &DataCap::from(1048576), &w.verifier_1, 0, &w.verifier_2, 0);
    params.verifier_request_2.signature.bytes.drain(..18);
    let error = remove(&mut w.state, &w.store, &mut w.ledger, &params).unwrap_err();
    assert_eq!(error.exit_code(), ExitCode::Forbidden);
    assert_eq!(w.state.remove_data_cap_proposal_ids, root);
    assert_eq!(proposal_id(&w.state, &w.store, &w.verifier_1, &w.client), None);
    assert_eq!(w.ledger.balance(&w.client), DataCap::from(2 * 1048576).to_tokens());
}

#[test]
fn one_verifier_twice_is_an_illegal_argument() {
    let mut w = world(2 * 1048576);
    let root = w.state.remove_data_cap_proposal_ids.clone();
    let params = request(&w.client, &DataCap::from(1048576), &w.verifier_1, 0, &w.verifier_1, 0);
    let error = remove(&mut w.state, &w.store, &mut w.ledger, &params).unwrap_err();
    assert_eq!(error.exit_code(), ExitCode::IllegalArgument);
    assert_eq!(w.state.remove_data_cap_proposal_ids, root);
    assert_eq!(proposal_id(&w.state, &w.store, &w.verifier_1, &w.client), None);
    assert_eq!(w.ledger.balance(&w.client), DataCap::from(2 * 1048576).to_tokens());
    // Found without reading the store.
    let error = w.state.begin_removal(&Store::new(), &params).unwrap_err();
    assert_eq!(error.exit_code(), ExitCode::IllegalArgument);
}

#[test]
fn a_signer_that_is_no_verifier_is_an_illegal_argument() {
    let mut w = world(2 * 1048576);
    let stranger = id_address(104);
    let params = request(&w.client, &DataCap::from(1048576), &w.verifier_1, 0, &stranger, 0);
    let error = remove(&mut w.state, &w.store, &mut w.ledger, &params).unwrap_err();
    assert_eq!(error.exit_code(), ExitCode::IllegalArgument);
    let params = request(&w.client, &DataCap::from(1048576), &stranger, 0, &w.verifier_2, 0);
    let error = remove(&mut w.state, &w.store, &mut w.ledger, &params).unwrap_err();
    assert_eq!(error.exit_code(), ExitCode::IllegalArgument);
    // A verifier whose cap is used up is still a verifier.
    w.state.put_verifier(&w.store, &w.verifier_1, &DataCap::zero()).unwrap();
    let params = request(&w.client, &DataCap::from(1048576), &w.verifier_1, 0, &w.verifier_2, 0);
    remove(&mut w.state, &w.store, &mut w.ledger, &params).unwrap();
}

#[test]
fn an_amount_that_is_not_positive_is_an_illegal_argument() {
    let mut w = world(2 * 1048576);
    for amount in [0, -1, -1048576] {
        let params =
            request(&w.client, &DataCap::from(amount), &w.verifier_1, 0, &w.verifier_2, 0);
        let error = remove(&mut w.state, &w.store, &mut w.ledger, &params).unwrap_err();
        assert_eq!(error.exit_code(), ExitCode::IllegalArgument);
    }
    assert_eq!(proposal_id(&w.state, &w.store, &w.verifier_1, &w.client), None);
    assert_eq!(w.ledger.balance(&w.client), DataCap::from(2 * 1048576).to_tokens());
}

#[test]
fn removal_is_capped_at_the_balance() {
    let mut w = world(1048576);
    let params =
        request(&w.client, &DataCap::from(5 * 1048576), &w.verifier_1, 0, &w.verifier_2, 0);
    let done = remove(&mut w.state, &w.store, &mut w.ledger, &params).unwrap();
    assert_eq!(done.verified_client, w.client);
    assert_eq!(done.data_cap_removed, DataCap::from(1048576));
    assert!(w.ledger.balance(&w.client).is_zero());
    assert_eq!(proposal_id(&w.state, &w.store, &w.verifier_1, &w.client), Some(1));
    assert_eq!(proposal_id(&w.state, &w.store, &w.verifier_2, &w.client), Some(1));
}

#[test]
fn a_balance_below_one_byte_counts_for_nothing() {
    let mut w = world(0);
    let atto = fvm_shared::bigint::BigInt::from(2_999_999_999_999_999_999u64);
    w.ledger.mint(&w.client, &TokenAmount::from_atto(inside(&atto)));
    let params = request(&w.client, &DataCap::from(10), &w.verifier_1, 0, &w.verifier_2, 0);
    let done = remove(&mut w.state, &w.store, &mut w.ledger, &params).unwrap();
    assert_eq!(done.data_cap_removed, DataCap::from(2));
    let left = fvm_shared::bigint::BigInt::from(999_999_999_999_999_999u64);
    assert_eq!(w.ledger.balance(&w.client), TokenAmount::from_atto(inside(&left)));
}

#[test]
fn removal_from_an_empty_balance_takes_nothing_and_uses_up_the_consent() {
    let mut w = world(0);
    let params = request(&w.client, &DataCap::from(1048576), &w.verifier_1, 0, &w.verifier_2, 0);
    let pending = w.state.begin_removal(&w.store, &params).unwrap();
    let staged = w
        .state
        .authorize_removal(&w.store, &pending, true, true, &w.ledger.balance(&w.client))
        .unwrap();
    assert!(staged.data_cap_removed().is_zero());
    // There is nothing to destroy, so the token actor is not called.
    assert_eq!(staged.tokens_to_destroy(), None);
    let done = w.state.complete_removal(staged, Ok(())).unwrap();
    assert_eq!(done.data_cap_removed, DataCap::zero());
    assert_eq!(done.verified_client, w.client);
    assert_eq!(proposal_id(&w.state, &w.store, &w.verifier_1, &w.client), Some(1));
    assert_eq!(proposal_id(&w.state, &w.store, &w.verifier_2, &w.client), Some(1));
    assert!(w.ledger.destroyed.is_empty());
    // The consent is used up.
    let error = remove(&mut w.state, &w.store, &mut w.ledger, &params).unwrap_err();
    assert_eq!(error.exit_code(), ExitCode::Forbidden);
}

#[test]
fn tokens_to_destroy_stand_for_the_amount_removed() {
    let w = world(2 * 1048576);
    let params = request(&w.client, &DataCap::from(3), &w.verifier_1, 0, &w.verifier_2, 0);
    let pending = w.state.begin_removal(&w.store, &params).unwrap();
    let staged = w
        .state
        .authorize_removal(&w.store, &pending, true, true, &w.ledger.balance(&w.client))
        .unwrap();
    assert_eq!(staged.data_cap_removed(), &DataCap::from(3));
    assert_eq!(staged.verified_client(), &w.client);
    let tokens = staged.tokens_to_destroy().unwrap();
    assert_eq!(tokens, DataCap::from(3).to_tokens());
    assert_eq!(
        tokens,
        TokenAmount::from_atto(BigInt::from_i64(3_000_000_000_000_000_000))
    );
}

#[test]
fn a_failed_token_call_leaves_the_state_as_it_was() {
    let mut w = world(2 * 1048576);
    w.ledger.fail = true;
    let root = w.state.remove_data_cap_proposal_ids.clone();
    let params = request(&w.client, &DataCap::from(1048576), &w.verifier_1, 0, &w.verifier_2, 0);
    let error = remove(&mut w.state, &w.store, &mut w.ledger, &params).unwrap_err();
    assert_eq!(error.exit_code(), ExitCode::CallFailed);
    assert_eq!(w.state.remove_data_cap_proposal_ids, root);
    assert_eq!(proposal_id(&w.state, &w.store, &w.verifier_1, &w.client), None);
    assert_eq!(proposal_id(&w.state, &w.store, &w.verifier_2, &w.client), None);
    assert_eq!(w.ledger.balance(&w.client), DataCap::from(2 * 1048576).to_tokens());
    // The consent was not used up: the same request passes once the token actor works.
    w.ledger.fail = false;
    remove(&mut w.state, &w.store, &mut w.ledger, &params).unwrap();
    assert_eq!(proposal_id(&w.state, &w.store, &w.verifier_1, &w.client), Some(1));
}

#[test]
fn the_failure_of_the_token_actor_is_handed_on() {
    let mut w = world(2 * 1048576);
    let params = request(&w.client, &DataCap::from(1048576), &w.verifier_1, 0, &w.verifier_2, 0);
    let pending = w.state.begin_removal(&w.store, &params).unwrap();
    let staged = w
        .state
        .authorize_removal(&w.store, &pending, true, true, &w.ledger.balance(&w.client))
        .unwrap();
    let error = w
        .state
        .complete_removal(staged, Err(ActorError::forbidden("not the owner".to_string())))
        .unwrap_err();
    assert_eq!(error.exit_code(), ExitCode::Forbidden);
    assert_eq!(error.msg(), "not the owner");
}

#[test]
fn counters_of_two_verifiers_for_one_client_are_independent() {
    let mut w = world(4 * 1048576);
    let verifier_3 = id_address(105);
    w.state.put_verifier(&w.store, &verifier_3, &DataCap::from(1)).unwrap();
    let amount = DataCap::from(1048576);

    let params = request(&w.client, &amount, &w.verifier_1, 0, &w.verifier_2, 0);
    remove(&mut w.state, &w.store, &mut w.ledger, &params).unwrap();
    assert_eq!(proposal_id(&w.state, &w.store, &w.verifier_1, &w.client), Some(1));
    assert_eq!(proposal_id(&w.state, &w.store, &w.verifier_2, &w.client), Some(1));
    assert_eq!(proposal_id(&w.state, &w.store, &verifier_3, &w.client), None);

    // The first verifier consents again, now with a third: only their two counters move.
    let params = request(&w.client, &amount, &w.verifier_1, 1, &verifier_3, 0);
    remove(&mut w.state, &w.store, &mut w.ledger, &params).unwrap();
    assert_eq!(proposal_id(&w.state, &w.store, &w.verifier_1, &w.client), Some(2));
    assert_eq!(proposal_id(&w.state, &w.store, &w.verifier_2, &w.client), Some(1));
    assert_eq!(proposal_id(&w.state, &w.store, &verifier_3, &w.client), Some(1));

    // The counters of another client, and of the pair turned round, are not touched.
    let other_client = id_address(106);
    assert_eq!(proposal_id(&w.state, &w.store, &w.verifier_1, &other_client), None);
    assert_eq!(proposal_id(&w.state, &w.store, &w.client, &w.verifier_1), None);
    assert_eq!(
        AddrPairKey::new(w.verifier_1.clone(), w.client.clone()).to_bytes(),
        vec![0, 101, 0, 103]
    );
}

#[test]
fn the_order_of_the_two_consents_does_not_matter() {
    let mut w = world(2 * 1048576);
    let params = request(&w.client, &DataCap::from(1), &w.verifier_2, 0, &w.verifier_1, 0);
    let done = remove(&mut w.state, &w.store, &mut w.ledger, &params).unwrap();
    assert_eq!(done.data_cap_removed, DataCap::from(1));
    assert_eq!(proposal_id(&w.state, &w.store, &w.verifier_1, &w.client), Some(1));
    assert_eq!(proposal_id(&w.state, &w.store, &w.verifier_2, &w.client), Some(1));
}

#[test]
fn a_removal_is_of_use_only_in_the_state_it_was_examined_in() {
    let mut w = world(2 * 1048576);
    let amount = DataCap::from(1);
    let params = request(&w.client, &amount, &w.verifier_1, 0, &w.verifier_2, 0);
    let balance = w.ledger.balance(&w.client);

    // Examined, then the verifiers change: the removal is stale.
    let pending = w.state.begin_removal(&w.store, &params).unwrap();
    w.state.remove_verifier(&w.store, &w.verifier_2).unwrap();
    let error = w.state.authorize_removal(&w.store, &pending, true, true, &balance).unwrap_err();
    assert_eq!(error.exit_code(), ExitCode::IllegalState);
    w.state.put_verifier(&w.store, &w.verifier_2, &DataCap::from(2 * 1048576)).unwrap();

    // Settled twice on the same counters: the second to complete is stale.
    let pending = w.state.begin_removal(&w.store, &params).unwrap();
    let first = w.state.authorize_removal(&w.store, &pending, true, true, &balance).unwrap();
    let second = w.state.authorize_removal(&w.store, &pending, true, true, &balance).unwrap();
    w.state.complete_removal(first, Ok(())).unwrap();
    let root = w.state.remove_data_cap_proposal_ids.clone();
    let error = w.state.complete_removal(second, Ok(())).unwrap_err();
    assert_eq!(error.exit_code(), ExitCode::IllegalState);
    assert_eq!(w.state.remove_data_cap_proposal_ids, root);
    assert_eq!(proposal_id(&w.state, &w.store, &w.verifier_1, &w.client), Some(1));
}

#[test]
fn a_wrong_signature_is_forbidden_before_anything_else() {
    let w = world(2 * 1048576);
    let params = request(&w.client, &DataCap::from(1), &w.verifier_1, 0, &w.verifier_2, 0);
    let pending = w.state.begin_removal(&w.store, &params).unwrap();
    let balance = w.ledger.balance(&w.client);
    for (valid_1, valid_2) in [(false, true), (true, false), (false, false)] {
        // Even a store that holds nothing is not looked at.
        let error = w
            .state
            .authorize_removal(&Store::new(), &pending, valid_1, valid_2, &balance)
            .unwrap_err();
        assert_eq!(error.exit_code(), ExitCode::Forbidden);
    }
    let error =
        w.state.authorize_removal(&Store::new(), &pending, true, true, &balance).unwrap_err();
    assert_eq!(error.exit_code(), ExitCode::IllegalState);
}

#[test]
fn a_counter_at_its_limit_cannot_advance() {
    // Counters are only ever written by removals, so the limit is out of reach of a test
    // that runs removals; the payload for the last counter can still be built.
    let proposal = RemoveDataCapProposal {
        verified_client: id_address(101),
        data_cap_amount: DataCap::from(1),
        removal_proposal_id: RemoveDataCapProposalID(u64::MAX),
    };
    let payload = proposal.signing_payload().unwrap();
    let mut expected = SIGNATURE_DOMAIN_SEPARATION_REMOVE_DATA_CAP.to_vec();
    expected.extend([0x83, 0x42, 0x00, 0x65, 0x42, 0x00, 0x01, 0x1b]);
    expected.extend([0xff; 8]);
    assert_eq!(payload, expected);
}

#[test]
fn both_signatures_must_be_right() {
    assert!(check_signatures(true, true).is_ok());
    for (valid_1, valid_2) in [(false, true), (true, false), (false, false)] {
        let error = check_signatures(valid_1, valid_2).unwrap_err();
        assert_eq!(error.exit_code(), ExitCode::Forbidden);
    }
}

#[test]
fn the_amount_is_the_lesser_of_request_and_balance() {
    let mebibyte = DataCap::from(1048576);
    let holds = |bytes: i32| DataCap::from(bytes).to_tokens();
    assert_eq!(amount_to_remove(&mebibyte, &holds(2 * 1048576)), mebibyte);
    assert_eq!(amount_to_remove(&mebibyte, &holds(1048576)), mebibyte);
    assert_eq!(amount_to_remove(&mebibyte, &holds(1048575)), DataCap::from(1048575));
    assert_eq!(amount_to_remove(&mebibyte, &holds(0)), DataCap::zero());
    // A balance of a byte less one unit is worth nothing.
    let nearly = TokenAmount::from_atto(BigInt::from_i64(999_999_999_999_999_999));
    assert_eq!(amount_to_remove(&mebibyte, &nearly), DataCap::zero());
    // Nothing is clamped: a balance below zero is less than any request.
    assert_eq!(amount_to_remove(&mebibyte, &holds(-3)), DataCap::from(-3));
}

#[test]
fn both_signers_must_be_registered() {
    assert!(check_verifiers(true, true).is_ok());
    for (first, second) in [(false, true), (true, false), (false, false)] {
        let error = check_verifiers(first, second).unwrap_err();
        assert_eq!(error.exit_code(), ExitCode::IllegalArgument);
    }
}

#[test]
fn the_root_of_the_counters_is_fixed_by_the_counters() {
    let amount = DataCap::from(1);
    let mut one = world(10);
    let params = request(&one.client, &amount, &one.verifier_1, 0, &one.verifier_2, 0);
    remove(&mut one.state, &one.store, &mut one.ledger, &params).unwrap();
    // The same two consents with the verifiers in the other order.
    let mut other = world(10);
    let params = request(&other.client, &amount, &other.verifier_2, 0, &other.verifier_1, 0);
    remove(&mut other.state, &other.store, &mut other.ledger, &params).unwrap();
    assert_eq!(one.state.remove_data_cap_proposal_ids, other.state.remove_data_cap_proposal_ids);
    assert_ne!(one.state.remove_data_cap_proposal_ids, one.state.verifiers);
}
