use vstd::prelude::*;

use crate::error::DIDError;

verus! {

/// A network that is neither of the well-known ones: a name with its consensus
/// node addresses and mirror-node addresses.
#[derive(Debug)]
pub struct HederaCustomNetwork {
    pub name: String,
    pub nodes: Vec<String>,
    pub mirror_nodes: Vec<String>,
}

/// The Hedera network a client is configured for.
#[derive(Debug)]
pub enum HederaNetwork {
    Mainnet,
    Testnet,
    Previewnet,
    LocalNode,
    Custom(HederaCustomNetwork),
}

/// The name under which a configured network is selected.
pub open spec fn hedera_network_name(n: HederaNetwork) -> Seq<char> {
    match n {
        HederaNetwork::Mainnet => seq!['m', 'a', 'i', 'n', 'n', 'e', 't'],
        HederaNetwork::Testnet => seq!['t', 'e', 's', 't', 'n', 'e', 't'],
        HederaNetwork::Previewnet => seq!['p', 'r', 'e', 'v', 'i', 'e', 'w', 'n', 'e', 't'],
        HederaNetwork::LocalNode => seq!['l', 'o', 'c', 'a', 'l'],
        HederaNetwork::Custom(c) => c.name@,
    }
}

/// The abstract content of a network: the well-known ones by name, a custom
/// one with its name and the texts of its node and mirror-node addresses.
pub enum NetworkView {
    Mainnet,
    Testnet,
    Previewnet,
    LocalNode,
    Custom { name: Seq<char>, nodes: Seq<Seq<char>>, mirror_nodes: Seq<Seq<char>> },
}

/// The texts of a sequence of strings.
pub open spec fn strings_view(v: Seq<String>) -> Seq<Seq<char>> {
    v.map_values(|x: String| x@)
}

impl View for HederaNetwork {
    type V = NetworkView;

    open spec fn view(&self) -> NetworkView {
        match self {
            HederaNetwork::Mainnet => NetworkView::Mainnet,
            HederaNetwork::Testnet => NetworkView::Testnet,
            HederaNetwork::Previewnet => NetworkView::Previewnet,
            HederaNetwork::LocalNode => NetworkView::LocalNode,
            HederaNetwork::Custom(c) => NetworkView::Custom {
                name: c.name@,
                nodes: strings_view(c.nodes@),
                mirror_nodes: strings_view(c.mirror_nodes@),
            },
        }
    }
}

/// One configured network with the operator account that pays for its
/// transactions.
#[derive(Debug)]
pub struct NetworkConfig {
    pub network: HederaNetwork,
    pub operator_id: String,
    pub operator_key: String,
}

/// The abstract content of a configured network.
pub struct NetworkConfigView {
    pub network: NetworkView,
    pub operator_id: Seq<char>,
    pub operator_key: Seq<char>,
}

impl View for NetworkConfig {
    type V = NetworkConfigView;

    open spec fn view(&self) -> NetworkConfigView {
        NetworkConfigView {
            network: self.network@,
            operator_id: self.operator_id@,
            operator_key: self.operator_key@,
        }
    }
}

/// The contents of a sequence of configured networks.
pub open spec fn configs_view(cfgs: Seq<NetworkConfig>) -> Seq<NetworkConfigView> {
    cfgs.map_values(|c: NetworkConfig| c@)
}

/// The networks a client service is built from.
#[derive(Debug)]
pub struct HederaClientConfiguration {
    pub networks: Vec<NetworkConfig>,
}

/// The names of a sequence of configured networks, in order.
pub open spec fn config_names(cfgs: Seq<NetworkConfig>) -> Seq<Seq<char>> {
    cfgs.map_values(|c: NetworkConfig| hedera_network_name(c.network))
}

/// A usable configuration: at least one network, no two under the same name.
pub open spec fn valid_configuration(networks: Seq<NetworkConfig>) -> bool {
    networks.len() > 0 && config_names(networks).no_duplicates()
}

/// The error a configuration is refused with.
pub open spec fn configuration_error(networks: Seq<NetworkConfig>, e: DIDError) -> bool {
    &&& e is InvalidArgument
    &&& networks.len() == 0 ==> e.message() == "no networks configured"@
    &&& networks.len() > 0 ==> e.message() == "duplicate network name in configuration"@
}

/// A validated set of network configurations: at least one, no two with the
/// same name.
#[derive(Debug)]
pub struct HederaClientService {
    networks: Vec<NetworkConfig>,
}

impl HederaNetwork {
    /// The name under which this network is selected.
    pub fn name(&self) -> (s: String)
        ensures
            s@ == hedera_network_name(*self),
    {
        match self {
            HederaNetwork::Mainnet => {
                proof {
                    reveal_strlit("mainnet");
                }
                "mainnet".to_owned()
            },
            HederaNetwork::Testnet => {
                proof {
                    reveal_strlit("testnet");
                }
                "testnet".to_owned()
            },
            HederaNetwork::Previewnet => {
                proof {
                    reveal_strlit("previewnet");
                }
                "previewnet".to_owned()
            },
            HederaNetwork::LocalNode => {
                proof {
                    reveal_strlit("local");
                }
                "local".to_owned()
            },
            HederaNetwork::Custom(c) => c.name.clone(),
        }
    }
}

fn clone_strings(v: &Vec<String>) -> (r: Vec<String>)
    ensures
        strings_view(r@) == strings_view(v@),
{
    let mut r: Vec<String> = Vec::new();
    let mut i: usize = 0;
    while i < v.len()
        invariant
            i <= v@.len(),
            r@.len() == i,
            forall|k: int| 0 <= k < i ==> (#[trigger] r@[k])@ == v@[k]@,
        decreases v@.len() - i,
    {
        r.push(v[i].clone());
        i = i + 1;
    }
    assert(strings_view(r@) =~= strings_view(v@));
    r
}

impl Clone for HederaNetwork {
    fn clone(&self) -> (r: Self)
        ensures
            r@ == self@,
            hedera_network_name(r) == hedera_network_name(*self),
    {
        match self {
            HederaNetwork::Mainnet => HederaNetwork::Mainnet,
            HederaNetwork::Testnet => HederaNetwork::Testnet,
            HederaNetwork::Previewnet => HederaNetwork::Previewnet,
            HederaNetwork::LocalNode => HederaNetwork::LocalNode,
            HederaNetwork::Custom(c) => HederaNetwork::Custom(
                HederaCustomNetwork {
                    name: c.name.clone(),
                    nodes: clone_strings(&c.nodes),
                    mirror_nodes: clone_strings(&c.mirror_nodes),
                },
            ),
        }
    }
}

impl Clone for NetworkConfig {
    fn clone(&self) -> (r: Self)
        ensures
            r@ == self@,
            hedera_network_name(r.network) == hedera_network_name(self.network),
    {
        NetworkConfig {
            network: self.network.clone(),
            operator_id: self.operator_id.clone(),
            operator_key: self.operator_key.clone(),
        }
    }
}

impl Clone for HederaClientService {
    fn clone(&self) -> (r: Self)
        ensures
            configs_view(r.configs()) == configs_view(self.configs()),
            config_names(r.configs()) == config_names(self.configs()),
    {
        proof {
            use_type_invariant(self);
        }
        let mut networks: Vec<NetworkConfig> = Vec::new();
        let mut i: usize = 0;
        while i < self.networks.len()
            invariant
                i <= self.networks@.len(),
                networks@.len() == i,
                forall|k: int|
                    0 <= k < i ==> (#[trigger] networks@[k])@ == self.networks@[k]@
                        && hedera_network_name(networks@[k].network) == hedera_network_name(
                        self.networks@[k].network,
                    ),
            decreases self.networks@.len() - i,
        {
            networks.push(self.networks[i].clone());
            i = i + 1;
        }
        assert(config_names(networks@) =~= config_names(self.networks@));
        assert(configs_view(networks@) =~= configs_view(self.networks@));
        HederaClientService { networks }
    }
}

impl HederaClientService {
    #[verifier::type_invariant]
    closed spec fn well_formed(self) -> bool {
        &&& self.networks@.len() > 0
        &&& config_names(self.networks@).no_duplicates()
    }

    /// The configured networks, in the order of the configuration.
    pub closed spec fn configs(&self) -> Seq<NetworkConfig> {
        self.networks@
    }

    /// Validates a configuration: it must name at least one network, and no
    /// two networks under the same name. The operator id and key of each
    /// network are kept as given: whether they parse as a Hedera account id
    /// and a DER private key is checked where the network client is built
    /// from them, not here.
    pub fn new(config: HederaClientConfiguration) -> (r: Result<HederaClientService, DIDError>)
        ensures
            match r {
                Ok(svc) => svc.configs() == config.networks@,
                Err(e) => configuration_error(config.networks@, e),
            },
            r is Ok <==> valid_configuration(config.networks@),
    {
        let networks = config.networks;
        if networks.len() == 0 {
            return Err(DIDError::InvalidArgument("no networks configured".to_owned()));
        }
        let ghost names = config_names(networks@);
        let mut i: usize = 0;
        while i < networks.len()
            invariant
                i <= networks@.len(),
                networks@ == config.networks@,
                names == config_names(networks@),
                names.subrange(0, i as int).no_duplicates(),
            decreases networks@.len() - i,
        {
            let name_i = networks[i].network.name();
            let mut j: usize = 0;
            while j < i
                invariant
                    j <= i < networks@.len(),
                    networks@ == config.networks@,
                    names == config_names(networks@),
                    name_i@ == names[i as int],
                    forall|k: int| 0 <= k < j ==> names[k] != names[i as int],
                decreases i - j,
            {
                let name_j = networks[j].network.name();
                if name_j == name_i {
                    assert(names[j as int] == names[i as int]);
                    return Err(
                        DIDError::InvalidArgument("duplicate network name in configuration".to_owned()),
                    );
                }
                j = j + 1;
            }
            assert forall|a: int, b: int|
                #![trigger names.subrange(0, i + 1)[a], names.subrange(0, i + 1)[b]]
                0 <= a < i + 1 && 0 <= b < i + 1 && a != b implies names.subrange(0, i + 1)[a]
                != names.subrange(0, i + 1)[b] by {
                assert(names.subrange(0, i + 1)[a] == names[a]);
                assert(names.subrange(0, i + 1)[b] == names[b]);
                if a < i && b < i {
                    assert(names.subrange(0, i as int)[a] == names[a]);
                    assert(names.subrange(0, i as int)[b] == names[b]);
                }
            }
            i = i + 1;
        }
        assert(names.subrange(0, networks@.len() as int) =~= names);
        Ok(HederaClientService { networks })
    }

    /// The configuration of the network a client is taken from: with no name,
    /// the only configured network (an error when more than one is configured);
    /// with a name, the network configured under that name.
    pub fn get_client(&self, network_name: Option<&str>) -> (r: Result<&NetworkConfig, DIDError>)
        ensures
            match network_name {
                None => match r {
                    Ok(c) => self.configs().len() == 1 && *c == self.configs()[0],
                    Err(e) => self.configs().len() != 1 && e is InvalidArgument && e.message()
                        == "network name is required when more than one network is configured"@,
                },
                Some(n) => match r {
                    Ok(c) => (exists|i: int|
                        0 <= i < self.configs().len() && config_names(self.configs())[i] == n@)
                        && (forall|i: int|
                        0 <= i < self.configs().len() && config_names(self.configs())[i] == n@
                            ==> *c == #[trigger] self.configs()[i]),
                    Err(e) => (forall|i: int|
                        0 <= i < self.configs().len() ==> config_names(self.configs())[i] != n@)
                        && e is InvalidArgument && e.message() == "unknown network: "@ + n@,
                },
            },
    {
        proof {
            use_type_invariant(self);
        }
        match network_name {
            None => {
                if self.networks.len() == 1 {
                    Ok(&self.networks[0])
                } else {
                    Err(
                        DIDError::InvalidArgument(
                            "network name is required when more than one network is configured".to_owned(),
                        ),
                    )
                }
            },
            Some(n) => {
                let wanted = n.to_owned();
                let ghost names = config_names(self.networks@);
                let mut i: usize = 0;
                while i < self.networks.len()
                    invariant
                        i <= self.networks@.len(),
                        names == config_names(self.networks@),
                        names.no_duplicates(),
                        network_name == Some(n),
                        wanted@ == n@,
                        forall|k: int| 0 <= k < i ==> names[k] != n@,
                    decreases self.networks@.len() - i,
                {
                    let name_i = self.networks[i].network.name();
                    if name_i == wanted {
                        assert(names[i as int] == n@);
                        assert forall|k: int|
                            0 <= k < self.configs().len() && names[k] == n@ implies self.networks[i as int]
                            == #[trigger] self.configs()[k] by {
                            if k != i {
                                assert(names[k] == names[i as int]);
                            }
                        }
                        return Ok(&self.networks[i]);
                    }
                    i = i + 1;
                }
                let mut msg = "unknown network: ".to_owned();
                msg.append(n);
                Err(DIDError::InvalidArgument(msg))
            },
        }
    }
}

} // verus!
