use hiero_did_sdk::client::{HederaClientConfiguration, HederaNetwork, NetworkConfig};
use hiero_did_sdk::did::{parse_did, HederaDid, Network};
use hiero_did_sdk::{resolve_events, HieroDidSdk, SignedEvent};

#[test]
fn sdk_reexports_are_accessible() {
    let _did = HederaDid::new(Network::Testnet, "base58key".to_string(), "0.0.123".to_string());
    let _network_name = HederaNetwork::Testnet.name();
    let _did_parse = parse_did("did:hedera:testnet:abc_0.0.1");
}

#[test]
fn test_sdk_handler_instantiation_from_config() {
    let config = HederaClientConfiguration {
        networks: vec![NetworkConfig {
            network: HederaNetwork::Testnet,
            operator_id: "0.0.123".to_string(),
            operator_key: "302e020100300506032b6570042204201111111111111111111111111111111111111111111111111111111111111111"
                .to_string(),
        }],
    };
    let sdk = HieroDidSdk::from_config(config).expect("failed to instantiate SDK from config");
    assert!(sdk.client_service().get_client(None).is_ok());
    let did = parse_did("did:hedera:testnet:z6MkpTHR8VNsBxRcmSt62E7SdTcv9B8ndv5Tzz6A4j5b2j3m_0.0.123")
        .unwrap();
    // nothing is known of this DID's topic
    let nothing: Vec<SignedEvent> = vec![];
    let result = resolve_events(&did, &nothing);
    assert!(result.is_err());
}
