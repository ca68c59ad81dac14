//! The state of a registry of verifiers, who grant clients data cap: an allowance of
//! bytes that are stored as verified data.
//!
//! The registry keeps, in two persistent maps, the data cap that each verifier may
//! still grant and, for each pair of a verifier and a client, how many removals the
//! verifier has consented to. Two verifiers together can have data cap taken away from
//! a client; the counters see to it that a consent is good for one removal only.

pub mod address;
pub mod bigint;
pub mod datacap;
pub mod encoding;
pub mod error;
pub mod removal;
pub mod state;
pub mod store;
pub mod types;

pub use address::{AddrPairKey, Address};
pub use bigint::BigInt;
pub use datacap::{DataCap, TokenAmount, TOKEN_PRECISION};
pub use encoding::{encode_array, encode_bytes, encode_unsigned};
pub use error::{ActorError, ExitCode};
pub use removal::{
    amount_to_remove, check_signatures, check_verifiers, removal_payload, PendingRemoval,
    StagedRemoval,
};
pub use state::{removal_outcome, State};
pub use store::{block_under, Cid, Store};
pub use types::{
    AddVerifierClientParams, AddVerifierParams, BytesParams, RemoveDataCapParams,
    RemoveDataCapProposal, RemoveDataCapProposalID, RemoveDataCapRequest, RemoveDataCapReturn,
    RestoreBytesParams, Signature, SignatureType, UseBytesParams, VerifierParams,
    SIGNATURE_DOMAIN_SEPARATION_REMOVE_DATA_CAP,
};
