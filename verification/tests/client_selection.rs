use hiero_did_sdk::client::{
    HederaClientConfiguration, HederaClientService, HederaCustomNetwork, HederaNetwork,
    NetworkConfig,
};
use hiero_did_sdk::DIDError;

fn config(network: HederaNetwork, operator_id: &str) -> NetworkConfig {
    NetworkConfig { network, operator_id: operator_id.to_string(), operator_key: "k".to_string() }
}

#[test]
fn named_lookup_returns_the_matching_network() {
    let svc = HederaClientService::new(HederaClientConfiguration {
        networks: vec![
            config(HederaNetwork::Testnet, "0.0.1"),
            config(HederaNetwork::Mainnet, "0.0.2"),
            config(HederaNetwork::LocalNode, "0.0.3"),
        ],
    })
    .unwrap();
    assert_eq!(svc.get_client(Some("mainnet")).unwrap().operator_id, "0.0.2");
    assert_eq!(svc.get_client(Some("testnet")).unwrap().operator_id, "0.0.1");
    assert_eq!(svc.get_client(Some("local")).unwrap().operator_id, "0.0.3");
}

#[test]
fn unnamed_lookup_with_one_network_returns_it() {
    let svc = HederaClientService::new(HederaClientConfiguration {
        networks: vec![config(HederaNetwork::Previewnet, "0.0.7")],
    })
    .unwrap();
    assert_eq!(svc.get_client(None).unwrap().operator_id, "0.0.7");
}

#[test]
fn configuration_errors_carry_their_messages() {
    match HederaClientService::new(HederaClientConfiguration { networks: vec![] }) {
        Err(DIDError::InvalidArgument(m)) => assert_eq!(m, "no networks configured"),
        _ => panic!("expected InvalidArgument"),
    }
    let dup = HederaClientConfiguration {
        networks: vec![config(HederaNetwork::Mainnet, "0.0.1"), config(HederaNetwork::Mainnet, "0.0.2")],
    };
    match HederaClientService::new(dup) {
        Err(DIDError::InvalidArgument(m)) => {
            assert_eq!(m, "duplicate network name in configuration")
        }
        _ => panic!("expected InvalidArgument"),
    }
}

#[test]
fn lookup_errors_carry_their_messages() {
    let svc = HederaClientService::new(HederaClientConfiguration {
        networks: vec![config(HederaNetwork::Testnet, "0.0.1"), config(HederaNetwork::Mainnet, "0.0.2")],
    })
    .unwrap();
    match svc.get_client(None) {
        Err(DIDError::InvalidArgument(m)) => assert_eq!(
            m,
            "network name is required when more than one network is configured"
        ),
        _ => panic!("expected InvalidArgument"),
    }
    match svc.get_client(Some("previewnet")) {
        Err(DIDError::InvalidArgument(m)) => assert_eq!(m, "unknown network: previewnet"),
        _ => panic!("expected InvalidArgument"),
    }
}

#[test]
fn custom_networks_are_selected_by_their_name() {
    let custom = HederaNetwork::Custom(HederaCustomNetwork {
        name: "staging".to_string(),
        nodes: vec!["127.0.0.1:50211".to_string()],
        mirror_nodes: vec!["127.0.0.1:5600".to_string()],
    });
    assert_eq!(custom.name(), "staging");
    let svc = HederaClientService::new(HederaClientConfiguration {
        networks: vec![config(custom, "0.0.9"), config(HederaNetwork::Testnet, "0.0.1")],
    })
    .unwrap();
    assert_eq!(svc.get_client(Some("staging")).unwrap().operator_id, "0.0.9");
    assert!(svc.get_client(Some("Staging")).is_err());
}

#[test]
fn a_custom_network_may_not_reuse_a_well_known_name() {
    let custom = HederaNetwork::Custom(HederaCustomNetwork {
        name: "testnet".to_string(),
        nodes: vec![],
        mirror_nodes: vec![],
    });
    let cfg = HederaClientConfiguration {
        networks: vec![config(custom, "0.0.9"), config(HederaNetwork::Testnet, "0.0.1")],
    };
    assert!(HederaClientService::new(cfg).is_err());
}

#[test]
fn well_known_network_names() {
    assert_eq!(HederaNetwork::Mainnet.name(), "mainnet");
    assert_eq!(HederaNetwork::Testnet.name(), "testnet");
    assert_eq!(HederaNetwork::Previewnet.name(), "previewnet");
    assert_eq!(HederaNetwork::LocalNode.name(), "local");
}
