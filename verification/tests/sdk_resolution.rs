use hiero_did_sdk::{dereference_events, parse_did, parse_did_url, resolve_events, DIDError, SignedEvent};

#[test]
fn resolve_did_rejects_completely_invalid_string() {
    let err = parse_did("not-a-did-at-all");
    assert!(err.is_err(), "must reject non-DID string");
    assert!(matches!(err.unwrap_err(), DIDError::InvalidDid(_)));
}

#[test]
fn resolve_did_rejects_did_without_hedera_method() {
    let err = parse_did("did:example:abc123");
    assert!(err.is_err(), "must reject non-hedera DID method");
}

#[test]
fn resolve_did_rejects_empty_string() {
    let err = parse_did("");
    assert!(err.is_err(), "must reject empty DID string");
}

#[test]
fn resolve_did_with_empty_topic_returns_error() {
    let did = parse_did("did:hedera:testnet:z6MkpTHR8VNsBxRcmSt62E7SdTcv9B8ndv5Tzz6A4j5b2j3m_0.0.12345")
        .unwrap();
    let no_messages: Vec<SignedEvent> = vec![];
    let result = resolve_events(&did, &no_messages);
    assert!(result.is_err(), "no messages on topic should produce a resolution error");
    assert!(matches!(result.err().unwrap(), DIDError::NotFound(_)));
}

#[test]
fn dereference_did_url_rejects_invalid_url() {
    let err = parse_did_url("not-a-did-url");
    assert!(err.is_err(), "must reject non-DID URL string");
}

#[test]
fn dereference_did_url_rejects_empty_string() {
    let err = parse_did_url("");
    assert!(err.is_err(), "must reject empty DID URL string");
}

#[test]
fn dereference_did_url_with_empty_topic_returns_error() {
    let url = parse_did_url(
        "did:hedera:testnet:z6MkpTHR8VNsBxRcmSt62E7SdTcv9B8ndv5Tzz6A4j5b2j3m_0.0.12345#did-root-key",
    )
    .unwrap();
    let no_messages: Vec<SignedEvent> = vec![];
    let result = dereference_events(&url, &no_messages);
    assert!(result.is_err(), "no messages on topic should fail dereference");
    match result {
        Err(DIDError::NotFound(m)) => assert_eq!(m, "no DID owner message found on the topic"),
        _ => panic!("expected NotFound"),
    }
}
