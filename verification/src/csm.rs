use vstd::prelude::*;

use crate::error::DIDError;

verus! {

/// The version of the serialized client-side-signing state this library
/// writes and accepts.
pub const CSM_STATE_VERSION: u32 = 1;

/// The length of an Ed25519 signature in bytes.
pub const ED25519_SIGNATURE_LEN: usize = 64;

/// Options of a prepare call.
#[derive(Debug)]
pub struct CsmPrepareOptions {
    /// The UNIX time (seconds) from which the prepared request is refused.
    pub expires_at_unix: Option<i64>,
}

/// The operation state carried from prepare to submit.
#[derive(Debug)]
pub struct CsmState {
    pub version: u32,
    pub request_id: String,
    pub expected_public_key_bytes: Vec<u8>,
    pub expires_at_unix: Option<i64>,
}

/// A prepared operation: its kind (`create`, `update` or `delete`), the exact
/// bytes the client must sign, and the state.
#[derive(Debug)]
pub struct CsmSigningRequest {
    pub operation: String,
    pub state: CsmState,
    pub message_bytes: Vec<u8>,
}

/// A prepared operation together with the client's signature of its bytes.
#[derive(Debug)]
pub struct CsmSubmitRequest {
    pub operation: String,
    pub state: CsmState,
    pub message_bytes: Vec<u8>,
    pub signature: Vec<u8>,
}

/// Several prepared operations of one kind, to be signed one signature each.
#[derive(Debug)]
pub struct CsmBatchSigningRequest {
    pub operation: String,
    pub requests: Vec<CsmSigningRequest>,
}

/// Several prepared operations with their signatures, in order.
#[derive(Debug)]
pub struct CsmBatchSubmitRequest {
    pub operation: String,
    pub requests: Vec<CsmSubmitRequest>,
}

/// What only the caller can compute for a submission: the request id derived
/// again from the operation, the message bytes rebuilt from the state, and
/// whether the signature verifies against the expected public key.
#[derive(Debug)]
pub struct SubmissionChecks {
    pub expected_request_id: String,
    pub rebuilt_message_bytes: Vec<u8>,
    pub signature_verifies: bool,
}

/// Builds the signing request of a prepared operation.
pub fn prepare_signing_request(
    operation: String,
    request_id: String,
    public_key_bytes: Vec<u8>,
    message_bytes: Vec<u8>,
    options: CsmPrepareOptions,
) -> (r: CsmSigningRequest)
    ensures
        r.operation@ == operation@,
        r.state.version == CSM_STATE_VERSION,
        r.state.request_id@ == request_id@,
        r.state.expected_public_key_bytes@ == public_key_bytes@,
        r.state.expires_at_unix == options.expires_at_unix,
        r.message_bytes@ == message_bytes@,
{
    CsmSigningRequest {
        operation,
        state: CsmState {
            version: CSM_STATE_VERSION,
            request_id,
            expected_public_key_bytes: public_key_bytes,
            expires_at_unix: options.expires_at_unix,
        },
        message_bytes,
    }
}

impl CsmSigningRequest {
    /// Attaches the client's signature; a signature of any length but that of
    /// an Ed25519 signature is refused.
    pub fn into_submit_request(self, signature: Vec<u8>) -> (r: Result<CsmSubmitRequest, DIDError>)
        ensures
            signature@.len() == ED25519_SIGNATURE_LEN ==> (r matches Ok(s) && s.operation
                == self.operation && s.state == self.state && s.message_bytes == self.message_bytes
                && s.signature == signature),
            signature@.len() != ED25519_SIGNATURE_LEN ==> (r matches Err(e) && e is InvalidSignature
                && e.message() == "signature must be 64 bytes"@),
    {
        if signature.len() != ED25519_SIGNATURE_LEN {
            return Err(DIDError::InvalidSignature("signature must be 64 bytes".to_owned()));
        }
        Ok(
            CsmSubmitRequest {
                operation: self.operation,
                state: self.state,
                message_bytes: self.message_bytes,
                signature,
            },
        )
    }
}

impl CsmBatchSigningRequest {
    /// Attaches one signature to each prepared operation, in order; refused
    /// when the number of signatures differs from the number of operations,
    /// or when a signature has the wrong length.
    pub fn into_submit_request(self, signatures: Vec<Vec<u8>>) -> (r: Result<CsmBatchSubmitRequest, DIDError>)
        ensures
            signatures@.len() != self.requests@.len() ==> (r matches Err(e) && e is InvalidArgument
                && e.message() == "signature count does not match the number of operations"@),
            signatures@.len() == self.requests@.len() && (exists|i: int|
                0 <= i < signatures@.len() && (#[trigger] signatures@[i])@.len()
                    != ED25519_SIGNATURE_LEN) ==> (r matches Err(e) && e is InvalidSignature
                && e.message() == "signature must be 64 bytes"@),
            r matches Ok(b) ==> {
                &&& signatures@.len() == self.requests@.len()
                &&& b.operation == self.operation
                &&& b.requests@.len() == self.requests@.len()
                &&& forall|i: int|
                    0 <= i < b.requests@.len() ==> (#[trigger] b.requests@[i]).operation
                        == self.requests@[i].operation && b.requests@[i].state
                        == self.requests@[i].state && b.requests@[i].message_bytes
                        == self.requests@[i].message_bytes && b.requests@[i].signature
                        == signatures@[i] && signatures@[i]@.len() == ED25519_SIGNATURE_LEN
            },
            (signatures@.len() == self.requests@.len() && forall|i: int|
                0 <= i < signatures@.len() ==> (#[trigger] signatures@[i])@.len()
                    == ED25519_SIGNATURE_LEN) ==> r is Ok,
    {
        if signatures.len() != self.requests.len() {
            return Err(
                DIDError::InvalidArgument(
                    "signature count does not match the number of operations".to_owned(),
                ),
            );
        }
        let mut k: usize = 0;
        while k < signatures.len()
            invariant
                k <= signatures@.len(),
                signatures@.len() == self.requests@.len(),
                forall|i: int| 0 <= i < k ==> (#[trigger] signatures@[i])@.len() == ED25519_SIGNATURE_LEN,
            decreases signatures@.len() - k,
        {
            if signatures[k].len() != ED25519_SIGNATURE_LEN {
                return Err(DIDError::InvalidSignature("signature must be 64 bytes".to_owned()));
            }
            k = k + 1;
        }
        let ghost old_requests = self.requests@;
        let ghost old_signatures = signatures@;
        let mut requests = self.requests;
        let mut signatures = signatures;
        let mut out: Vec<CsmSubmitRequest> = Vec::new();
        while requests.len() > 0
            invariant
                requests@.len() == signatures@.len(),
                out@.len() + requests@.len() == old_requests.len(),
                old_signatures.len() == old_requests.len(),
                requests@ == old_requests.subrange(out@.len() as int, old_requests.len() as int),
                signatures@ == old_signatures.subrange(out@.len() as int, old_requests.len() as int),
                forall|i: int| 0 <= i < old_signatures.len() ==> (#[trigger] old_signatures[i])@.len()
                    == ED25519_SIGNATURE_LEN,
                forall|i: int|
                    0 <= i < out@.len() ==> (#[trigger] out@[i]).operation == old_requests[i].operation
                        && out@[i].state == old_requests[i].state
                        && out@[i].message_bytes == old_requests[i].message_bytes
                        && out@[i].signature == old_signatures[i],
            decreases requests@.len(),
        {
            let req = requests.remove(0);
            let sig = signatures.remove(0);
            out.push(
                CsmSubmitRequest {
                    operation: req.operation,
                    state: req.state,
                    message_bytes: req.message_bytes,
                    signature: sig,
                },
            );
        }
        Ok(CsmBatchSubmitRequest { operation: self.operation, requests: out })
    }
}

/// Whether two byte vectors hold the same bytes.
fn bytes_equal(a: &Vec<u8>, b: &Vec<u8>) -> (r: bool)
    ensures
        r == (a@ == b@),
{
    if a.len() != b.len() {
        return false;
    }
    let mut i: usize = 0;
    while i < a.len()
        invariant
            a@.len() == b@.len(),
            i <= a@.len(),
            forall|k: int| 0 <= k < i ==> a@[k] == b@[k],
        decreases a@.len() - i,
    {
        if a[i] != b[i] {
            return false;
        }
        i = i + 1;
    }
    assert(a@ =~= b@);
    true
}

/// Whether a request carrying `expires_at` has expired at time `now`.
pub open spec fn expired(expires_at: Option<i64>, now: i64) -> bool {
    expires_at matches Some(t) && now >= t
}

/// Why a submission is refused: its state, or its signature, with the detail.
pub enum SubmissionRefusal {
    BadState(Seq<char>),
    BadSignature(Seq<char>),
}

/// The outcome of checking a submission, in the order the checks are made:
/// state version, request id, message bytes, expiry, signature length,
/// signature validity.
pub open spec fn submission_outcome(
    state_version: u32,
    request_id_matches: bool,
    message_matches: bool,
    is_expired: bool,
    signature_len: nat,
    signature_verifies: bool,
) -> Option<SubmissionRefusal> {
    if state_version != CSM_STATE_VERSION {
        Some(SubmissionRefusal::BadState("unsupported CSM state version"@))
    } else if !request_id_matches {
        Some(SubmissionRefusal::BadState("CSM request id does not match the operation"@))
    } else if !message_matches {
        Some(SubmissionRefusal::BadState("CSM message bytes do not match the operation"@))
    } else if is_expired {
        Some(SubmissionRefusal::BadState("CSM request has expired"@))
    } else if signature_len != ED25519_SIGNATURE_LEN {
        Some(SubmissionRefusal::BadSignature("signature must be 64 bytes"@))
    } else if !signature_verifies {
        Some(SubmissionRefusal::BadSignature("signature does not verify against the expected public key"@))
    } else {
        None
    }
}

/// Checks a signed submission before it is written: the state version, the
/// request id and the message bytes must match what the operation gives again,
/// the request must not have expired at `now_unix`, and the signature must have
/// the Ed25519 length and verify. Refusals of the state are `InvalidArgument`,
/// refusals of the signature `InvalidSignature`.
pub fn validate_submission(req: &CsmSubmitRequest, now_unix: i64, checks: &SubmissionChecks) -> (r: Result<(), DIDError>)
    ensures
        ({
            let outcome = submission_outcome(
                req.state.version,
                req.state.request_id@ == checks.expected_request_id@,
                req.message_bytes@ == checks.rebuilt_message_bytes@,
                expired(req.state.expires_at_unix, now_unix),
                req.signature@.len(),
                checks.signature_verifies,
            );
            match outcome {
                None => r is Ok,
                Some(SubmissionRefusal::BadState(msg)) => r matches Err(e) && e is InvalidArgument
                    && e.message() == msg,
                Some(SubmissionRefusal::BadSignature(msg)) => r matches Err(e) && e is InvalidSignature
                    && e.message() == msg,
            }
        }),
{
    if req.state.version != CSM_STATE_VERSION {
        return Err(DIDError::InvalidArgument("unsupported CSM state version".to_owned()));
    }
    if req.state.request_id != checks.expected_request_id {
        return Err(DIDError::InvalidArgument("CSM request id does not match the operation".to_owned()));
    }
    if !bytes_equal(&req.message_bytes, &checks.rebuilt_message_bytes) {
        return Err(DIDError::InvalidArgument("CSM message bytes do not match the operation".to_owned()));
    }
    match req.state.expires_at_unix {
        Some(t) => {
            if now_unix >= t {
                return Err(DIDError::InvalidArgument("CSM request has expired".to_owned()));
            }
        },
        None => {},
    }
    if req.signature.len() != ED25519_SIGNATURE_LEN {
        return Err(DIDError::InvalidSignature("signature must be 64 bytes".to_owned()));
    }
    if !checks.signature_verifies {
        return Err(
            DIDError::InvalidSignature(
                "signature does not verify against the expected public key".to_owned(),
            ),
        );
    }
    Ok(())
}

} // verus!
