use hiero_did_sdk::{
    parse_did, resolve_events, DIDError, DidEvent, HederaDid, Service, SignedEvent,
    VerificationMethod,
};

const DID: &str = "did:hedera:testnet:z6MkpTHR8VNsBxRcmSt62E7SdTcv9B8ndv5Tzz6A4j5b2j3m_0.0.12345";

fn did() -> HederaDid {
    parse_did(DID).unwrap()
}

fn signed(event: DidEvent) -> SignedEvent {
    SignedEvent { event, signature_valid: true }
}

fn owner() -> SignedEvent {
    signed(DidEvent::Owner { controller: DID.to_string(), public_key_multibase: "z6MkRoot".to_string() })
}

fn service(fragment: &str, kind: &str, endpoint: &str) -> Service {
    Service {
        id: format!("{}#{}", DID, fragment),
        service_type: kind.to_string(),
        service_endpoint: endpoint.to_string(),
    }
}

#[test]
fn owner_event_creates_the_root_key() {
    let res = resolve_events(&did(), &vec![owner()]).unwrap();
    let doc = &res.did_document;
    assert_eq!(doc.id, DID);
    assert_eq!(doc.controller, DID);
    assert_eq!(doc.verification_method.len(), 1);
    assert_eq!(doc.verification_method[0].id, format!("{}#did-root-key", DID));
    assert_eq!(doc.verification_method[0].method_type, "Ed25519VerificationKey2020");
    assert_eq!(doc.verification_method[0].public_key_multibase, "z6MkRoot");
    assert!(doc.service.is_empty());
    assert_eq!(res.did_document_metadata.deactivated, Some(false));
}

#[test]
fn no_owner_event_means_not_found() {
    let events = vec![signed(DidEvent::AddService(service("s", "LinkedDomains", "https://example.com")))];
    match resolve_events(&did(), &events) {
        Err(DIDError::NotFound(m)) => assert_eq!(m, "no DID owner message found on the topic"),
        _ => panic!("expected NotFound"),
    }
}

#[test]
fn an_unsigned_owner_event_is_ignored() {
    let mut o = owner();
    o.signature_valid = false;
    assert!(resolve_events(&did(), &vec![o]).is_err());
}

#[test]
fn multiple_operations_are_applied_in_order() {
    let events = vec![
        owner(),
        signed(DidEvent::AddService(service("svc-1", "LinkedDomains", "https://example.com"))),
        signed(DidEvent::AddService(service("svc-2", "DIDCommMessaging", "https://example.com/msg"))),
    ];
    let res = resolve_events(&did(), &events).unwrap();
    let svcs = &res.did_document.service;
    assert_eq!(svcs.len(), 2);
    assert_eq!(svcs[0].id, format!("{}#svc-1", DID));
    assert_eq!(svcs[1].id, format!("{}#svc-2", DID));
    assert_eq!(svcs[1].service_type, "DIDCommMessaging");
}

#[test]
fn adding_then_removing_a_service_leaves_it_out() {
    let svc = service("endpoint", "LinkedDomains", "https://example.com");
    let id = svc.id.clone();
    let events = vec![owner(), signed(DidEvent::AddService(svc)), signed(DidEvent::RemoveService(id.clone()))];
    let res = resolve_events(&did(), &events).unwrap();
    assert!(res.did_document.service.iter().all(|s| s.id != id));
}

#[test]
fn adding_a_service_twice_replaces_it() {
    let events = vec![
        owner(),
        signed(DidEvent::AddService(service("vcs", "LinkedDomains", "https://a.example"))),
        signed(DidEvent::AddService(service("vcs", "LinkedDomains", "https://b.example"))),
    ];
    let res = resolve_events(&did(), &events).unwrap();
    assert_eq!(res.did_document.service.len(), 1);
    assert_eq!(res.did_document.service[0].service_endpoint, "https://b.example");
}

#[test]
fn verification_methods_are_added_and_removed() {
    let vm = VerificationMethod {
        id: format!("{}#key-1", DID),
        method_type: "Ed25519VerificationKey2020".to_string(),
        controller: DID.to_string(),
        public_key_multibase: "z6MkOther".to_string(),
    };
    let id = vm.id.clone();
    let added = resolve_events(&did(), &vec![owner(), signed(DidEvent::AddVerificationMethod(vm))]).unwrap();
    assert_eq!(added.did_document.verification_method.len(), 2);
    assert_eq!(added.did_document.verification_method[1].id, id);
    let vm2 = VerificationMethod {
        id: id.clone(),
        method_type: "Ed25519VerificationKey2020".to_string(),
        controller: DID.to_string(),
        public_key_multibase: "z6MkOther".to_string(),
    };
    let removed = resolve_events(
        &did(),
        &vec![owner(), signed(DidEvent::AddVerificationMethod(vm2)), signed(DidEvent::RemoveVerificationMethod(id))],
    )
    .unwrap();
    assert_eq!(removed.did_document.verification_method.len(), 1);
}

#[test]
fn deactivation_empties_the_document() {
    let events = vec![
        owner(),
        signed(DidEvent::AddService(service("svc", "LinkedDomains", "https://example.com"))),
        signed(DidEvent::Deactivate),
    ];
    let res = resolve_events(&did(), &events).unwrap();
    assert_eq!(res.did_document_metadata.deactivated, Some(true));
    assert!(res.did_document.verification_method.is_empty());
    assert!(res.did_document.service.is_empty());
}

#[test]
fn updates_after_deactivation_do_not_revive_the_did() {
    let events = vec![
        owner(),
        signed(DidEvent::Deactivate),
        signed(DidEvent::AddService(service("post-deactivate", "LinkedDomains", "https://example.com"))),
        owner(),
        signed(DidEvent::Deactivate),
    ];
    let res = resolve_events(&did(), &events).unwrap();
    assert_eq!(res.did_document_metadata.deactivated, Some(true));
    assert!(res.did_document.service.is_empty());
    assert!(res.did_document.verification_method.is_empty());
}

#[test]
fn a_replayed_owner_event_changes_nothing() {
    let once = resolve_events(&did(), &vec![owner()]).unwrap();
    let twice = resolve_events(&did(), &vec![owner(), owner()]).unwrap();
    assert_eq!(once.did_document.verification_method.len(), twice.did_document.verification_method.len());
    assert_eq!(twice.did_document.verification_method.len(), 1);
}

#[test]
fn events_with_bad_signatures_are_ignored() {
    let mut bad = signed(DidEvent::Deactivate);
    bad.signature_valid = false;
    let res = resolve_events(&did(), &vec![owner(), bad]).unwrap();
    assert_eq!(res.did_document_metadata.deactivated, Some(false));
    assert_eq!(res.did_document.verification_method.len(), 1);
}
