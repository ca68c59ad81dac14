//! The arguments and results of the registry's methods.
//!
//! Each record is sent as a tuple of its fields in the order in which they stand here.

use crate::address::Address;
use crate::datacap::DataCap;
use vstd::prelude::*;

verus! {

/// A verifier or a client, with the data cap granted to it.
#[derive(Debug, PartialEq, Eq)]
pub struct VerifierParams {
    pub address: Address,
    pub allowance: DataCap,
}

impl Clone for VerifierParams {
    fn clone(&self) -> (r: Self)
        ensures
            r.address@ == self.address@,
            r.allowance@ == self.allowance@,
    {
        VerifierParams { address: self.address.clone(), allowance: self.allowance.clone() }
    }
}

pub type AddVerifierParams = VerifierParams;

pub type AddVerifierClientParams = VerifierParams;

/// A verified client, with a number of bytes to use or to give back.
#[derive(Debug, PartialEq, Eq)]
pub struct BytesParams {
    /// Address of verified client.
    pub address: Address,
    /// Number of bytes to use.
    pub deal_size: DataCap,
}

impl Clone for BytesParams {
    fn clone(&self) -> (r: Self)
        ensures
            r.address@ == self.address@,
            r.deal_size@ == self.deal_size@,
    {
        BytesParams { address: self.address.clone(), deal_size: self.deal_size.clone() }
    }
}

pub type UseBytesParams = BytesParams;

pub type RestoreBytesParams = BytesParams;

/// The words `fil_removedatacap:`, which stand before every proposal that a verifier
/// signs, so that a signature made for another purpose cannot pass for one.
pub const SIGNATURE_DOMAIN_SEPARATION_REMOVE_DATA_CAP: [u8; 18] = [
    102, 105, 108, 95, 114, 101, 109, 111, 118, 101, 100, 97, 116, 97, 99, 97, 112, 58,
];

/// The scheme that a signature was made with.
#[derive(Clone, Copy, Debug, PartialEq, Eq, Structural)]
pub enum SignatureType {
    Secp256k1,
    BLS,
}

/// A signature. The library carries it; checking it is the host's part.
#[derive(Debug, PartialEq, Eq)]
pub struct Signature {
    pub sig_type: SignatureType,
    pub bytes: Vec<u8>,
}

impl Clone for Signature {
    fn clone(&self) -> (r: Self)
        ensures
            r.sig_type == self.sig_type,
            r.bytes@ == self.bytes@,
    {
        Signature { sig_type: self.sig_type, bytes: self.bytes.clone() }
    }
}

/// One verifier's consent to a removal.
#[derive(Debug, PartialEq, Eq)]
pub struct RemoveDataCapRequest {
    pub verifier: Address,
    pub signature: Signature,
}

impl Clone for RemoveDataCapRequest {
    fn clone(&self) -> (r: Self)
        ensures
            r.verifier@ == self.verifier@,
            r.signature.sig_type == self.signature.sig_type,
            r.signature.bytes@ == self.signature.bytes@,
    {
        RemoveDataCapRequest { verifier: self.verifier.clone(), signature: self.signature.clone() }
    }
}

/// The request to take data cap away from a client, with the consent of two verifiers.
#[derive(Debug, PartialEq, Eq)]
pub struct RemoveDataCapParams {
    pub verified_client_to_remove: Address,
    pub data_cap_amount_to_remove: DataCap,
    pub verifier_request_1: RemoveDataCapRequest,
    pub verifier_request_2: RemoveDataCapRequest,
}

impl Clone for RemoveDataCapParams {
    fn clone(&self) -> (r: Self)
        ensures
            r.verified_client_to_remove@ == self.verified_client_to_remove@,
            r.data_cap_amount_to_remove@ == self.data_cap_amount_to_remove@,
            r.verifier_request_1.verifier@ == self.verifier_request_1.verifier@,
            r.verifier_request_1.signature.sig_type == self.verifier_request_1.signature.sig_type,
            r.verifier_request_1.signature.bytes@ == self.verifier_request_1.signature.bytes@,
            r.verifier_request_2.verifier@ == self.verifier_request_2.verifier@,
            r.verifier_request_2.signature.sig_type == self.verifier_request_2.signature.sig_type,
            r.verifier_request_2.signature.bytes@ == self.verifier_request_2.signature.bytes@,
    {
        RemoveDataCapParams {
            verified_client_to_remove: self.verified_client_to_remove.clone(),
            data_cap_amount_to_remove: self.data_cap_amount_to_remove.clone(),
            verifier_request_1: self.verifier_request_1.clone(),
            verifier_request_2: self.verifier_request_2.clone(),
        }
    }
}

/// What a removal took away, and from whom.
#[derive(Debug, PartialEq, Eq)]
pub struct RemoveDataCapReturn {
    pub verified_client: Address,
    pub data_cap_removed: DataCap,
}

impl Clone for RemoveDataCapReturn {
    fn clone(&self) -> (r: Self)
        ensures
            r.verified_client@ == self.verified_client@,
            r.data_cap_removed@ == self.data_cap_removed@,
    {
        RemoveDataCapReturn {
            verified_client: self.verified_client.clone(),
            data_cap_removed: self.data_cap_removed.clone(),
        }
    }
}

/// How many removals a verifier has consented to for one client.
#[derive(Clone, Copy, Debug, PartialEq, Eq, Structural)]
pub struct RemoveDataCapProposalID(pub u64);

/// What a verifier signs to consent to a removal. It is never sent: the registry builds
/// it from the request and from the counter that it keeps, and checks the signature
/// against that.
#[derive(Debug)]
pub struct RemoveDataCapProposal {
    pub verified_client: Address,
    pub data_cap_amount: DataCap,
    pub removal_proposal_id: RemoveDataCapProposalID,
}

} // verus!
