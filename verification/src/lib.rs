//! Verified core of the `did:hedera` SDK handler: network configuration and
//! client selection, the `did:hedera` identifier and DID URL grammars, the
//! folding of a DID's topic events into its document, DID URL dereferencing,
//! and the decisions of the resolve-until polling loop.
pub mod client;
pub mod csm;
pub mod dereference;
pub mod did;
pub mod did_url;
pub mod document;
pub mod error;
pub mod laws;
pub mod sdk;
mod text;

pub use client::{
    HederaClientConfiguration, HederaClientService, HederaCustomNetwork, HederaNetwork,
    NetworkConfig,
};
pub use dereference::{dereference, dereference_events, DereferencedResource};
pub use did::{parse_did, HederaDid, Network};
pub use did_url::{parse_did_url, HederaDidUrl};
pub use document::{
    resolve_events, DIDDocument, DIDDocumentMetadata, DidEvent, DIDResolution, Service,
    SignedEvent, VerificationMethod,
};
pub use error::DIDError;
pub use sdk::{HieroDidSdk, PollDecision, PollObservation, RESOLVE_POLL_INTERVAL_MILLIS};
pub use csm::{
    prepare_signing_request, validate_submission, CsmBatchSigningRequest, CsmBatchSubmitRequest,
    CsmPrepareOptions, CsmSigningRequest, CsmState, CsmSubmitRequest, SubmissionChecks,
    CSM_STATE_VERSION, ED25519_SIGNATURE_LEN,
};
