use hiero_did_sdk::{
    dereference, dereference_events, parse_did_url, DereferencedResource, DIDDocument, DIDError,
    DidEvent, Service, SignedEvent, VerificationMethod,
};

const DID: &str = "did:hedera:testnet:z6MkpTHR8VNsBxRcmSt62E7SdTcv9B8ndv5Tzz6A4j5b2j3m_0.0.12345";

fn document() -> DIDDocument {
    DIDDocument {
        id: DID.to_string(),
        controller: DID.to_string(),
        verification_method: vec![VerificationMethod {
            id: format!("{}#did-root-key", DID),
            method_type: "Ed25519VerificationKey2020".to_string(),
            controller: DID.to_string(),
            public_key_multibase: "z6MkRoot".to_string(),
        }],
        service: vec![
            Service {
                id: format!("{}#vcs", DID),
                service_type: "LinkedDomains".to_string(),
                service_endpoint: "https://example.com/did".to_string(),
            },
            Service {
                id: format!("{}#vcs", DID),
                service_type: "Duplicate".to_string(),
                service_endpoint: "https://example.com/other".to_string(),
            },
        ],
    }
}

#[test]
fn bare_url_gives_the_document() {
    let url = parse_did_url(DID).unwrap();
    match dereference(&url, document()).unwrap() {
        DereferencedResource::Document(d) => assert_eq!(d.id, DID),
        _ => panic!("expected the document"),
    }
}

#[test]
fn fragment_finds_a_verification_method() {
    let url = parse_did_url(&format!("{}#did-root-key", DID)).unwrap();
    match dereference(&url, document()).unwrap() {
        DereferencedResource::VerificationMethod(m) => assert_eq!(m.public_key_multibase, "z6MkRoot"),
        _ => panic!("expected a verification method"),
    }
}

#[test]
fn fragment_finds_the_first_matching_service() {
    let url = parse_did_url(&format!("{}#vcs", DID)).unwrap();
    match dereference(&url, document()).unwrap() {
        DereferencedResource::Service(s) => assert_eq!(s.service_type, "LinkedDomains"),
        _ => panic!("expected a service"),
    }
}

#[test]
fn dereference_nonexistent_fragment_gives_not_found() {
    let url = parse_did_url(&format!("{}#fragment-that-does-not-exist", DID)).unwrap();
    match dereference(&url, document()) {
        Err(DIDError::NotFound(m)) => assert_eq!(m, format!("{}#fragment-that-does-not-exist", DID)),
        _ => panic!("expected NotFound"),
    }
}

#[test]
fn paths_and_queries_are_refused() {
    for suffix in ["/path", "?q=1", "/p?q#did-root-key"] {
        let url = parse_did_url(&format!("{}{}", DID, suffix)).unwrap();
        match dereference(&url, document()) {
            Err(DIDError::InvalidArgument(m)) => {
                assert_eq!(m, "path and query parameters are not supported by dereference")
            }
            _ => panic!("expected InvalidArgument for {:?}", suffix),
        }
    }
}

#[test]
fn dereferencing_from_topic_events_finds_the_root_key() {
    let owner = SignedEvent {
        event: DidEvent::Owner { controller: DID.to_string(), public_key_multibase: "z6MkRoot".to_string() },
        signature_valid: true,
    };
    let url = parse_did_url(&format!("{}#did-root-key", DID)).unwrap();
    match dereference_events(&url, &vec![owner]).unwrap() {
        DereferencedResource::VerificationMethod(m) => {
            assert_eq!(m.id, format!("{}#did-root-key", DID));
            assert_eq!(m.public_key_multibase, "z6MkRoot");
        }
        _ => panic!("expected the root key"),
    }
}

#[test]
fn dereferencing_from_unsigned_events_finds_nothing() {
    let forged = SignedEvent {
        event: DidEvent::Owner { controller: DID.to_string(), public_key_multibase: "z6MkRoot".to_string() },
        signature_valid: false,
    };
    let url = parse_did_url(&format!("{}#did-root-key", DID)).unwrap();
    match dereference_events(&url, &vec![forged]) {
        Err(DIDError::NotFound(m)) => assert_eq!(m, "no DID owner message found on the topic"),
        _ => panic!("expected NotFound"),
    }
}
