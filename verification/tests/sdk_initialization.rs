use hiero_did_sdk::client::{HederaClientConfiguration, HederaNetwork, NetworkConfig};
use hiero_did_sdk::HieroDidSdk;

const DUMMY_KEY: &str =
    "302e020100300506032b657004220420a0e4a6f2b1c3d5e7f90817263544536271809a0b1c2d3e4f5a6b7c8d9e0f1a2b";

fn dummy_key() -> String {
    DUMMY_KEY.to_string()
}

fn testnet_config_single() -> HederaClientConfiguration {
    HederaClientConfiguration {
        networks: vec![NetworkConfig {
            network: HederaNetwork::Testnet,
            operator_id: "0.0.1234".to_string(),
            operator_key: dummy_key(),
        }],
    }
}

#[test]
fn from_config_succeeds_with_valid_single_network() {
    let sdk = HieroDidSdk::from_config(testnet_config_single());
    assert!(sdk.is_ok(), "expected SDK to build from a valid single-network config");
}

#[test]
fn from_config_exposes_client_service_accessor() {
    let sdk = HieroDidSdk::from_config(testnet_config_single()).unwrap();
    assert!(sdk.client_service().get_client(None).is_ok());
}

#[test]
fn sdk_is_cloneable() {
    let sdk = HieroDidSdk::from_config(testnet_config_single()).unwrap();
    let cloned = sdk.clone();
    let cfg = cloned.client_service().get_client(None).unwrap();
    assert_eq!(cfg.operator_id, "0.0.1234");
}

#[test]
fn from_config_with_multi_network_config_succeeds() {
    let cfg = HederaClientConfiguration {
        networks: vec![
            NetworkConfig {
                network: HederaNetwork::Testnet,
                operator_id: "0.0.1".to_string(),
                operator_key: dummy_key(),
            },
            NetworkConfig {
                network: HederaNetwork::Mainnet,
                operator_id: "0.0.2".to_string(),
                operator_key: dummy_key(),
            },
        ],
    };
    let sdk = HieroDidSdk::from_config(cfg).unwrap();
    assert!(sdk.client_service().get_client(Some("testnet")).is_ok());
    assert!(sdk.client_service().get_client(Some("mainnet")).is_ok());
}

#[test]
fn from_config_fails_with_empty_networks() {
    let cfg = HederaClientConfiguration { networks: vec![] };
    let err = HieroDidSdk::from_config(cfg);
    assert!(err.is_err(), "expected error for empty networks config");
}

#[test]
fn from_config_fails_with_duplicate_network_names() {
    let cfg = HederaClientConfiguration {
        networks: vec![
            NetworkConfig {
                network: HederaNetwork::Testnet,
                operator_id: "0.0.1".to_string(),
                operator_key: dummy_key(),
            },
            NetworkConfig {
                network: HederaNetwork::Testnet,
                operator_id: "0.0.2".to_string(),
                operator_key: dummy_key(),
            },
        ],
    };
    assert!(HieroDidSdk::from_config(cfg).is_err());
}

#[test]
fn get_client_fails_without_network_name_when_multi_network() {
    let cfg = HederaClientConfiguration {
        networks: vec![
            NetworkConfig {
                network: HederaNetwork::Testnet,
                operator_id: "0.0.1".to_string(),
                operator_key: dummy_key(),
            },
            NetworkConfig {
                network: HederaNetwork::Mainnet,
                operator_id: "0.0.2".to_string(),
                operator_key: dummy_key(),
            },
        ],
    };
    let sdk = HieroDidSdk::from_config(cfg).unwrap();
    assert!(sdk.client_service().get_client(None).is_err());
}

#[test]
fn get_client_fails_with_unknown_network_name() {
    let sdk = HieroDidSdk::from_config(testnet_config_single()).unwrap();
    assert!(sdk.client_service().get_client(Some("mainnet")).is_err());
}
