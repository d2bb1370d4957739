use hiero_did_sdk::{
    prepare_signing_request, validate_submission, CsmBatchSigningRequest, CsmPrepareOptions,
    CsmSigningRequest, DIDError, SubmissionChecks, CSM_STATE_VERSION,
};

fn prepared(expires_at_unix: Option<i64>) -> CsmSigningRequest {
    prepare_signing_request(
        "create".to_string(),
        "req-1".to_string(),
        vec![7u8; 32],
        b"message to sign".to_vec(),
        CsmPrepareOptions { expires_at_unix },
    )
}

fn checks_for(req: &CsmSigningRequest, verifies: bool) -> SubmissionChecks {
    SubmissionChecks {
        expected_request_id: req.state.request_id.clone(),
        rebuilt_message_bytes: req.message_bytes.clone(),
        signature_verifies: verifies,
    }
}

#[test]
fn prepare_records_the_state() {
    let far_future_unix: i64 = 9999999999;
    let req = prepared(Some(far_future_unix));
    assert_eq!(req.operation, "create");
    assert_eq!(req.state.version, CSM_STATE_VERSION);
    assert_eq!(req.state.version, 1);
    assert_eq!(req.state.request_id, "req-1");
    assert_eq!(req.state.expected_public_key_bytes, vec![7u8; 32]);
    assert_eq!(req.state.expires_at_unix, Some(far_future_unix));
    assert_eq!(req.message_bytes, b"message to sign".to_vec());
}

#[test]
fn a_short_signature_is_refused_when_attached() {
    match prepared(None).into_submit_request(vec![0u8; 4]) {
        Err(DIDError::InvalidSignature(m)) => assert_eq!(m, "signature must be 64 bytes"),
        _ => panic!("expected InvalidSignature"),
    }
    assert!(prepared(None).into_submit_request(vec![0u8; 63]).is_err());
    assert!(prepared(None).into_submit_request(vec![0u8; 65]).is_err());
}

#[test]
fn a_well_formed_signed_submission_is_accepted() {
    let req = prepared(Some(2_000));
    let checks = checks_for(&req, true);
    let sub = req.into_submit_request(vec![1u8; 64]).unwrap();
    assert_eq!(sub.operation, "create");
    assert_eq!(sub.signature, vec![1u8; 64]);
    assert!(validate_submission(&sub, 1_999, &checks).is_ok());
}

#[test]
fn an_expired_request_is_refused() {
    let req = prepared(Some(1));
    let checks = checks_for(&req, true);
    let sub = req.into_submit_request(vec![1u8; 64]).unwrap();
    match validate_submission(&sub, 1, &checks) {
        Err(DIDError::InvalidArgument(m)) => assert_eq!(m, "CSM request has expired"),
        _ => panic!("expected InvalidArgument"),
    }
}

#[test]
fn a_tampered_state_is_refused() {
    let req = prepared(None);
    let checks = checks_for(&req, true);
    let mut sub = req.into_submit_request(vec![1u8; 64]).unwrap();
    sub.state.version = 999;
    match validate_submission(&sub, 0, &checks) {
        Err(DIDError::InvalidArgument(m)) => assert_eq!(m, "unsupported CSM state version"),
        _ => panic!("expected InvalidArgument"),
    }
    sub.state.version = CSM_STATE_VERSION;
    sub.state.request_id = "hacked_request_id".to_string();
    match validate_submission(&sub, 0, &checks) {
        Err(DIDError::InvalidArgument(m)) => {
            assert_eq!(m, "CSM request id does not match the operation")
        }
        _ => panic!("expected InvalidArgument"),
    }
    sub.state.request_id = "req-1".to_string();
    sub.message_bytes = b"other bytes".to_vec();
    match validate_submission(&sub, 0, &checks) {
        Err(DIDError::InvalidArgument(m)) => {
            assert_eq!(m, "CSM message bytes do not match the operation")
        }
        _ => panic!("expected InvalidArgument"),
    }
}

#[test]
fn a_signature_that_does_not_verify_is_refused() {
    let req = prepared(None);
    let checks = checks_for(&req, false);
    let sub = req.into_submit_request(vec![0xDE; 64]).unwrap();
    match validate_submission(&sub, 0, &checks) {
        Err(DIDError::InvalidSignature(m)) => {
            assert_eq!(m, "signature does not verify against the expected public key")
        }
        _ => panic!("expected InvalidSignature"),
    }
}

#[test]
fn batch_signature_count_must_match() {
    let batch = CsmBatchSigningRequest { operation: "update".to_string(), requests: vec![prepared(None), prepared(None)] };
    match batch.into_submit_request(vec![vec![1u8; 64]]) {
        Err(DIDError::InvalidArgument(m)) => {
            assert_eq!(m, "signature count does not match the number of operations")
        }
        _ => panic!("expected InvalidArgument"),
    }
}

#[test]
fn batch_signatures_are_attached_in_order() {
    let batch = CsmBatchSigningRequest { operation: "update".to_string(), requests: vec![prepared(None), prepared(Some(5))] };
    let out = batch.into_submit_request(vec![vec![1u8; 64], vec![2u8; 64]]).unwrap();
    assert_eq!(out.operation, "update");
    assert_eq!(out.requests.len(), 2);
    assert_eq!(out.requests[0].signature, vec![1u8; 64]);
    assert_eq!(out.requests[1].signature, vec![2u8; 64]);
    assert_eq!(out.requests[1].state.expires_at_unix, Some(5));
}

#[test]
fn batch_with_a_short_signature_is_refused() {
    let batch = CsmBatchSigningRequest { operation: "update".to_string(), requests: vec![prepared(None), prepared(None)] };
    match batch.into_submit_request(vec![vec![1u8; 64], vec![2u8; 10]]) {
        Err(DIDError::InvalidSignature(m)) => assert_eq!(m, "signature must be 64 bytes"),
        _ => panic!("expected InvalidSignature"),
    }
}

#[test]
fn an_expiry_before_the_epoch_has_passed() {
    let req = prepared(Some(-5));
    let checks = checks_for(&req, true);
    let sub = req.into_submit_request(vec![1u8; 64]).unwrap();
    assert!(validate_submission(&sub, -6, &checks).is_ok());
    match validate_submission(&sub, 0, &checks) {
        Err(DIDError::InvalidArgument(m)) => assert_eq!(m, "CSM request has expired"),
        _ => panic!("expected InvalidArgument"),
    }
}
