//! The configuration from which a network is started: its validators, its
//! accounts and the gas objects that the accounts own at the start.

use crate::address::{
    ipv4_text, ipv4_to_text, make_tcp_addr, make_tcp_zero_addr, make_udp_addr, tcp_address_text,
    udp_address_text, IpAddress, Multiaddr, SocketAddress,
};
use crate::base_types::{ObjectID, SuiAddress};
use crate::crypto::{seeded_rng, AuthorityKeyPair, Ed25519Keys, NetworkKeyPair, SuiKeyPair};
use vstd::prelude::*;
use vstd::string::*;

verus! {

broadcast use vstd::array::group_array_axioms;

/// Gas value given to an object whose configuration names none.
pub const DEFAULT_GAS_AMOUNT: u64 = 30_000_000_000_000_000;

/// Size of the committee of a configuration that names none.
pub const DEFAULT_NUMBER_OF_AUTHORITIES: usize = 4;

/// Number of accounts of a configuration for local testing.
pub const DEFAULT_NUMBER_OF_ACCOUNT: usize = 5;

/// Number of gas objects of each account of a configuration for local testing.
pub const DEFAULT_NUMBER_OF_OBJECT_PER_ACCOUNT: usize = 5;

/// Gas price that a validator asks for where its configuration names none.
pub const DEFAULT_GAS_PRICE: u64 = 1;

/// Commission rate of a validator where its configuration names none.
pub const DEFAULT_COMMISSION_RATE: u64 = 0;

/// Number of requests that a node serves at a time where its configuration names none.
pub const DEFAULT_GRPC_CONCURRENCY_LIMIT: u64 = 20_000_000_000;

/// Number of gas objects in each range of a configuration for benchmarks.
pub const BENCHMARKS_OBJECTS_PER_RANGE: u64 = 5000;

/// The gas value of an object configuration that does not state one.
pub fn default_gas_value() -> (value: u64)
    ensures
        value == DEFAULT_GAS_AMOUNT,
{
    DEFAULT_GAS_AMOUNT
}

/// Calls `std::time::SystemTime::now` and hands out the milliseconds that
/// `duration_since` counts from the Unix epoch, or zero where the clock stands
/// before the epoch. Nothing is stated of the number.
#[verifier::external_body]
fn unix_time_ms() -> (now: u64) {
    match std::time::SystemTime::now().duration_since(std::time::UNIX_EPOCH) {
        Ok(elapsed) => elapsed.as_millis() as u64,
        Err(_) => 0,
    }
}

/// The parameters that the validators agree on before the network starts.
#[derive(Clone, Copy, Debug, PartialEq, Eq)]
pub struct GenesisCeremonyParameters {
    /// When the chain starts, in milliseconds since the Unix epoch.
    pub chain_start_timestamp_ms: u64,
}

impl GenesisCeremonyParameters {
    /// Parameters of a chain that starts now.
    pub fn new() -> (parameters: Self) {
        GenesisCeremonyParameters { chain_start_timestamp_ms: unix_time_ms() }
    }
}

impl Default for GenesisCeremonyParameters {
    fn default() -> (parameters: Self) {
        Self::new()
    }
}

/// One gas object of an account.
#[derive(Clone, Copy, Debug, PartialEq, Eq)]
pub struct ObjectConfig {
    pub object_id: ObjectID,
    pub gas_value: u64,
}

/// A row of gas objects of an account.
#[derive(Clone, Copy, Debug, PartialEq, Eq)]
pub struct ObjectConfigRange {
    /// Starting object id
    pub offset: ObjectID,
    /// Number of object ids
    pub count: u64,
    /// Gas value per object id
    pub gas_value: u64,
}

/// An account and the gas objects that it owns at the start.
#[derive(Clone, Debug, PartialEq, Eq)]
pub struct AccountConfig {
    /// The address of the account; an account without one gets a fresh key.
    pub address: Option<SuiAddress>,
    pub gas_objects: Vec<ObjectConfig>,
    pub gas_object_ranges: Option<Vec<ObjectConfigRange>>,
}

impl AccountConfig {
    /// True of an account with `objects` gas objects of the default value and
    /// an empty list of ranges.
    pub open spec fn is_plain(&self, address: Option<SuiAddress>, objects: nat) -> bool {
        &&& self.address == address
        &&& self.gas_objects@.len() == objects
        &&& forall|j: int|
            0 <= j < objects ==> (#[trigger] self.gas_objects@[j]).gas_value == DEFAULT_GAS_AMOUNT
        &&& self.gas_object_ranges matches Some(ranges) && ranges@.len() == 0
    }

    /// An account with `objects` gas objects of the default value, each under
    /// an id drawn at random, and an empty list of ranges.
    pub fn plain(address: Option<SuiAddress>, objects: usize) -> (account: Self)
        ensures
            account.is_plain(address, objects as nat),
    {
        let mut gas_objects: Vec<ObjectConfig> = Vec::new();
        let mut j: usize = 0;
        while j < objects
            invariant
                j <= objects,
                gas_objects@.len() == j,
                forall|k: int|
                    0 <= k < j ==> (#[trigger] gas_objects@[k]).gas_value == DEFAULT_GAS_AMOUNT,
            decreases objects - j,
        {
            gas_objects.push(
                ObjectConfig { object_id: ObjectID::random(), gas_value: DEFAULT_GAS_AMOUNT },
            );
            j = j + 1;
        }
        AccountConfig { address, gas_objects, gas_object_ranges: Some(Vec::new()) }
    }
}

/// The addresses at which a validator on the local host is reached.
#[derive(Clone, Debug, PartialEq, Eq)]
pub struct LocalAddresses {
    pub network_address: Multiaddr,
    pub p2p_address: Multiaddr,
    pub metrics_address: SocketAddress,
    pub narwhal_metrics_address: Multiaddr,
    pub narwhal_primary_address: Multiaddr,
    pub narwhal_worker_address: Multiaddr,
}

/// The keys of a validator and the addresses at which it is reached.
#[derive(Clone, Debug, PartialEq, Eq)]
pub struct ValidatorGenesisInfo {
    pub key_pair: AuthorityKeyPair,
    pub worker_key_pair: NetworkKeyPair,
    pub account_key_pair: SuiKeyPair,
    pub network_key_pair: NetworkKeyPair,
    pub network_address: Multiaddr,
    pub p2p_address: Multiaddr,
    pub p2p_listen_address: Option<SocketAddress>,
    pub metrics_address: SocketAddress,
    pub narwhal_metrics_address: Multiaddr,
    pub gas_price: u64,
    pub commission_rate: u64,
    pub narwhal_primary_address: Multiaddr,
    pub narwhal_worker_address: Multiaddr,
}

/// The address at which a validator listens for its peers: `ip` with the
/// port for peers, moved by `port_offset`.
pub open spec fn spec_p2p_listen_address(ip: Option<IpAddress>, port_offset: nat) -> Option<
    SocketAddress,
> {
    match ip {
        Some(ip) => Some(
            SocketAddress {
                ip,
                port: (ValidatorGenesisInfo::DEFAULT_P2P_LISTEN_PORT + port_offset) as u16,
            },
        ),
        None => None,
    }
}

impl ValidatorGenesisInfo {
    pub const DEFAULT_NETWORK_PORT: u16 = 1000;

    pub const DEFAULT_P2P_PORT: u16 = 2000;

    pub const DEFAULT_P2P_LISTEN_PORT: u16 = 3000;

    pub const DEFAULT_METRICS_PORT: u16 = 4000;

    pub const DEFAULT_NARWHAL_METRICS_PORT: u16 = 5000;

    pub const DEFAULT_NARWHAL_PRIMARY_PORT: u16 = 6000;

    pub const DEFAULT_NARWHAL_WORKER_PORT: u16 = 7000;

    /// True of a validator on the host `ip` whose ports are the default ports
    /// moved by `port_offset`, and which asks the default price and commission.
    pub open spec fn is_based_at(
        &self,
        ip: Seq<char>,
        port_offset: nat,
        p2p_listen_address: Option<IpAddress>,
    ) -> bool {
        &&& self.network_address@ == tcp_address_text(
            ip,
            (Self::DEFAULT_NETWORK_PORT + port_offset) as nat,
        )
        &&& self.p2p_address@ == udp_address_text(
            ip,
            (Self::DEFAULT_P2P_PORT + port_offset) as nat,
        )
        &&& self.p2p_listen_address == spec_p2p_listen_address(p2p_listen_address, port_offset)
        &&& self.metrics_address.port == Self::DEFAULT_METRICS_PORT + port_offset
        &&& self.metrics_address.ip matches IpAddress::V4(octets) && octets@ == seq![
            0u8,
            0u8,
            0u8,
            0u8,
        ]
        &&& self.narwhal_metrics_address@ == tcp_address_text(
            "0.0.0.0"@,
            (Self::DEFAULT_NARWHAL_METRICS_PORT + port_offset) as nat,
        )
        &&& self.gas_price == DEFAULT_GAS_PRICE
        &&& self.commission_rate == DEFAULT_COMMISSION_RATE
        &&& self.narwhal_primary_address@ == udp_address_text(
            ip,
            (Self::DEFAULT_NARWHAL_PRIMARY_PORT + port_offset) as nat,
        )
        &&& self.narwhal_worker_address@ == udp_address_text(
            ip,
            (Self::DEFAULT_NARWHAL_WORKER_PORT + port_offset) as nat,
        )
    }

    /// A validator on the local host, at the addresses that were found free
    /// for it, with the default price and commission.
    pub fn from_localhost_for_testing(
        key_pair: AuthorityKeyPair,
        worker_key_pair: NetworkKeyPair,
        account_key_pair: SuiKeyPair,
        network_key_pair: NetworkKeyPair,
        addresses: LocalAddresses,
    ) -> (info: Self)
        ensures
            info.key_pair == key_pair,
            info.worker_key_pair == worker_key_pair,
            info.account_key_pair == account_key_pair,
            info.network_key_pair == network_key_pair,
            info.network_address == addresses.network_address,
            info.p2p_address == addresses.p2p_address,
            info.p2p_listen_address is None,
            info.metrics_address == addresses.metrics_address,
            info.narwhal_metrics_address == addresses.narwhal_metrics_address,
            info.gas_price == DEFAULT_GAS_PRICE,
            info.commission_rate == DEFAULT_COMMISSION_RATE,
            info.narwhal_primary_address == addresses.narwhal_primary_address,
            info.narwhal_worker_address == addresses.narwhal_worker_address,
    {
        ValidatorGenesisInfo {
            key_pair,
            worker_key_pair,
            account_key_pair,
            network_key_pair,
            network_address: addresses.network_address,
            p2p_address: addresses.p2p_address,
            p2p_listen_address: None,
            metrics_address: addresses.metrics_address,
            narwhal_metrics_address: addresses.narwhal_metrics_address,
            gas_price: DEFAULT_GAS_PRICE,
            commission_rate: DEFAULT_COMMISSION_RATE,
            narwhal_primary_address: addresses.narwhal_primary_address,
            narwhal_worker_address: addresses.narwhal_worker_address,
        }
    }

    /// A validator on the host `ip`, on the default ports moved by
    /// `port_offset`. The offset lets several nodes share one host.
    pub fn from_base_ip(
        key_pair: AuthorityKeyPair,
        worker_key_pair: NetworkKeyPair,
        account_key_pair: SuiKeyPair,
        network_key_pair: NetworkKeyPair,
        p2p_listen_address: Option<IpAddress>,
        ip: String,
        port_offset: usize,
    ) -> (info: Self)
        requires
            port_offset < 1000,
        ensures
            info.key_pair == key_pair,
            info.worker_key_pair == worker_key_pair,
            info.account_key_pair == account_key_pair,
            info.network_key_pair == network_key_pair,
            info.is_based_at(ip@, port_offset as nat, p2p_listen_address),
    {
        let port_offset: u16 = port_offset as u16;
        let listen = match p2p_listen_address {
            Some(listen_ip) => Some(
                SocketAddress {
                    ip: listen_ip,
                    port: Self::DEFAULT_P2P_LISTEN_PORT + port_offset,
                },
            ),
            None => None,
        };
        let zero: [u8; 4] = [0, 0, 0, 0];
        assert(zero@ =~= seq![0u8, 0u8, 0u8, 0u8]);
        ValidatorGenesisInfo {
            key_pair,
            worker_key_pair,
            account_key_pair,
            network_key_pair,
            network_address: make_tcp_addr(
                ip.as_str(),
                Self::DEFAULT_NETWORK_PORT + port_offset,
            ),
            p2p_address: make_udp_addr(ip.as_str(), Self::DEFAULT_P2P_PORT + port_offset),
            p2p_listen_address: listen,
            metrics_address: SocketAddress {
                ip: IpAddress::V4(zero),
                port: Self::DEFAULT_METRICS_PORT + port_offset,
            },
            narwhal_metrics_address: make_tcp_zero_addr(
                Self::DEFAULT_NARWHAL_METRICS_PORT + port_offset,
            ),
            gas_price: DEFAULT_GAS_PRICE,
            commission_rate: DEFAULT_COMMISSION_RATE,
            narwhal_primary_address: make_udp_addr(
                ip.as_str(),
                Self::DEFAULT_NARWHAL_PRIMARY_PORT + port_offset,
            ),
            narwhal_worker_address: make_udp_addr(
                ip.as_str(),
                Self::DEFAULT_NARWHAL_WORKER_PORT + port_offset,
            ),
        }
    }
}

/// The address that a validator is given by default: the TCP address, served
/// over HTTP, of a socket address that was found free on this host.
pub fn default_multiaddr_address(octets: &[u8; 4], port: u16) -> (address: Multiaddr)
    ensures
        address@ == tcp_address_text(ipv4_text(octets@), port as nat),
{
    let host = ipv4_to_text(octets);
    make_tcp_addr(host.as_str(), port)
}

/// All information needed to build the configuration of a validator's node.
#[derive(Clone, Debug, PartialEq, Eq)]
pub struct ValidatorConfigInfo {
    pub genesis_info: ValidatorGenesisInfo,
    pub consensus_address: Multiaddr,
    pub consensus_internal_worker_address: Option<Multiaddr>,
}

/// The address at which the consensus of a validator for benchmarks is reached.
pub open spec fn benchmark_consensus_address() -> Seq<char> {
    "/ip4/127.0.0.1/tcp/8083/http"@
}

/// The address of every interface of a host.
pub open spec fn unspecified_ipv4() -> IpAddress {
    IpAddress::V4([0u8, 0u8, 0u8, 0u8])
}

impl ValidatorConfigInfo {
    /// True of a validator for benchmarks on the host `ip`: fresh keys of the
    /// right schemes, the ports of the benchmarks, a peer port open on every
    /// interface.
    pub open spec fn is_benchmark_validator(&self, ip: Seq<char>) -> bool {
        &&& self.consensus_address@ == benchmark_consensus_address()
        &&& self.consensus_internal_worker_address is None
        &&& self.genesis_info.key_pair.wf()
        &&& self.genesis_info.worker_key_pair.wf()
        &&& self.genesis_info.account_key_pair matches SuiKeyPair::Ed25519(keys) && keys.wf()
        &&& self.genesis_info.network_key_pair.wf()
        &&& self.genesis_info.is_based_at(
            ip,
            GenesisConfig::BENCHMARKS_PORT_OFFSET as nat,
            Some(unspecified_ipv4()),
        )
    }
}

impl ObjectConfigRange {
    /// True of a range of gas objects for benchmarks: the number of objects
    /// of the benchmarks, each of the greatest gas value.
    pub open spec fn is_benchmark_range(&self) -> bool {
        self.count == BENCHMARKS_OBJECTS_PER_RANGE && self.gas_value == u64::MAX
    }
}

/// The configuration from which a network is started.
#[derive(Clone, Debug, PartialEq, Eq)]
pub struct GenesisConfig {
    pub validator_config_info: Option<Vec<ValidatorConfigInfo>>,
    pub parameters: GenesisCeremonyParameters,
    pub committee_size: usize,
    pub grpc_load_shed: Option<bool>,
    pub grpc_concurrency_limit: Option<u64>,
    pub accounts: Vec<AccountConfig>,
}

impl GenesisConfig {
    /// A predictable seed of the generator from which the keys and ids of
    /// benchmarks are drawn. Other parts of a system, such as load generators,
    /// may need it too.
    pub const BENCHMARKS_RNG_SEED: u64 = 0;

    /// What is added to the default ports in a configuration for benchmarks.
    pub const BENCHMARKS_PORT_OFFSET: usize = 500;

    /// True of a configuration that names nothing but its accounts.
    pub open spec fn has_default_settings(&self) -> bool {
        &&& self.validator_config_info is None
        &&& self.committee_size == DEFAULT_NUMBER_OF_AUTHORITIES
        &&& self.grpc_load_shed is None
        &&& self.grpc_concurrency_limit == Some(DEFAULT_GRPC_CONCURRENCY_LIMIT)
    }

    /// True of a configuration with default settings whose accounts are
    /// plain: account `i` has the address `addresses[i]` and `objects` gas
    /// objects of the default value.
    pub open spec fn is_custom(&self, addresses: Seq<Option<SuiAddress>>, objects: nat) -> bool {
        &&& self.has_default_settings()
        &&& self.accounts@.len() == addresses.len()
        &&& forall|i: int|
            0 <= i < addresses.len() ==> (#[trigger] self.accounts@[i]).is_plain(
                addresses[i],
                objects,
            )
    }

    /// A configuration for local testing: the default number of accounts, each
    /// without an address and with the default number of gas objects.
    pub fn for_local_testing() -> (config: Self)
        ensures
            config.is_custom(
                Seq::new(DEFAULT_NUMBER_OF_ACCOUNT as nat, |i: int| None::<SuiAddress>),
                DEFAULT_NUMBER_OF_OBJECT_PER_ACCOUNT as nat,
            ),
    {
        Self::custom_genesis(
            DEFAULT_NUMBER_OF_AUTHORITIES,
            DEFAULT_NUMBER_OF_ACCOUNT,
            DEFAULT_NUMBER_OF_OBJECT_PER_ACCOUNT,
        )
    }

    /// A configuration for local testing with one account for each address,
    /// each with the default number of gas objects.
    pub fn for_local_testing_with_addresses(addresses: Vec<SuiAddress>) -> (config: Self)
        ensures
            config.is_custom(
                addresses@.map_values(|address: SuiAddress| Some(address)),
                DEFAULT_NUMBER_OF_OBJECT_PER_ACCOUNT as nat,
            ),
    {
        Self::custom_genesis_with_addresses(
            DEFAULT_NUMBER_OF_AUTHORITIES,
            addresses,
            DEFAULT_NUMBER_OF_OBJECT_PER_ACCOUNT,
        )
    }

    /// A configuration with `num_accounts` accounts, each without an address
    /// and with `num_objects_per_account` gas objects of the default value.
    /// The number of authorities must not be zero; the committee has the
    /// default size all the same.
    pub fn custom_genesis(
        num_authorities: usize,
        num_accounts: usize,
        num_objects_per_account: usize,
    ) -> (config: Self)
        requires
            num_authorities > 0,
        ensures
            config.is_custom(
                Seq::new(num_accounts as nat, |i: int| None::<SuiAddress>),
                num_objects_per_account as nat,
            ),
    {
        let mut accounts: Vec<AccountConfig> = Vec::new();
        let mut i: usize = 0;
        while i < num_accounts
            invariant
                i <= num_accounts,
                accounts@.len() == i,
                forall|k: int|
                    0 <= k < i ==> (#[trigger] accounts@[k]).is_plain(
                        None,
                        num_objects_per_account as nat,
                    ),
            decreases num_accounts - i,
        {
            accounts.push(AccountConfig::plain(None, num_objects_per_account));
            i = i + 1;
        }
        let defaults = GenesisConfig::default();
        GenesisConfig {
            validator_config_info: defaults.validator_config_info,
            parameters: defaults.parameters,
            committee_size: defaults.committee_size,
            grpc_load_shed: defaults.grpc_load_shed,
            grpc_concurrency_limit: defaults.grpc_concurrency_limit,
            accounts,
        }
    }

    /// A configuration with one account for each of `addresses`, each with
    /// `num_objects_per_account` gas objects of the default value. The number
    /// of authorities must not be zero; the committee has the default size all
    /// the same.
    pub fn custom_genesis_with_addresses(
        num_authorities: usize,
        addresses: Vec<SuiAddress>,
        num_objects_per_account: usize,
    ) -> (config: Self)
        requires
            num_authorities > 0,
        ensures
            config.is_custom(
                addresses@.map_values(|address: SuiAddress| Some(address)),
                num_objects_per_account as nat,
            ),
    {
        let mut accounts: Vec<AccountConfig> = Vec::new();
        let mut i: usize = 0;
        while i < addresses.len()
            invariant
                i <= addresses.len(),
                accounts@.len() == i,
                forall|k: int|
                    0 <= k < i ==> (#[trigger] accounts@[k]).is_plain(
                        Some(addresses@[k]),
                        num_objects_per_account as nat,
                    ),
            decreases addresses.len() - i,
        {
            accounts.push(AccountConfig::plain(Some(addresses[i]), num_objects_per_account));
            i = i + 1;
        }
        let defaults = GenesisConfig::default();
        GenesisConfig {
            validator_config_info: defaults.validator_config_info,
            parameters: defaults.parameters,
            committee_size: defaults.committee_size,
            grpc_load_shed: defaults.grpc_load_shed,
            grpc_concurrency_limit: defaults.grpc_concurrency_limit,
            accounts,
        }
    }

    /// True of a configuration for benchmarks of the hosts `ips`: one validator
    /// for each host, in their order; a chain that starts at time zero; one
    /// account, the owner of one range of gas objects for each validator.
    pub open spec fn is_for_benchmarks(&self, ips: Seq<String>) -> bool {
        &&& self.validator_config_info matches Some(validators) && validators@.len() == ips.len()
            && forall|i: int|
            0 <= i < ips.len() ==> (#[trigger] validators@[i]).is_benchmark_validator(ips[i]@)
        &&& self.parameters.chain_start_timestamp_ms == 0
        &&& self.committee_size == ips.len()
        &&& self.grpc_load_shed is None
        &&& self.grpc_concurrency_limit is None
        &&& self.accounts@.len() == 1
        &&& self.accounts@[0].address is Some
        &&& self.accounts@[0].gas_objects@.len() == 0
        &&& self.accounts@[0].gas_object_ranges matches Some(ranges) && ranges@.len() == ips.len()
            && forall|i: int| 0 <= i < ips.len() ==> (#[trigger] ranges@[i]).is_benchmark_range()
    }

    /// A configuration from which a network for benchmarks is started. Only
    /// the hosts of the validators are given. Every key and every id is drawn
    /// from a generator with the seed of the benchmarks, so that each
    /// validator makes the same configuration for itself.
    pub fn new_for_benchmarks(ips: &[String]) -> (config: Self)
        ensures
            config.is_for_benchmarks(ips@),
    {
        let mut rng = seeded_rng(GenesisConfig::BENCHMARKS_RNG_SEED);
        let mut validators: Vec<ValidatorConfigInfo> = Vec::new();
        let zero: [u8; 4] = [0, 0, 0, 0];
        assert(IpAddress::V4(zero) == unspecified_ipv4()) by {
            assert(zero =~= [0u8, 0u8, 0u8, 0u8]);
        }
        let mut i: usize = 0;
        while i < ips.len()
            invariant
                i <= ips.len(),
                validators@.len() == i,
                IpAddress::V4(zero) == unspecified_ipv4(),
                forall|k: int|
                    0 <= k < i ==> (#[trigger] validators@[k]).is_benchmark_validator(ips@[k]@),
            decreases ips.len() - i,
        {
            let consensus_address = Multiaddr("/ip4/127.0.0.1/tcp/8083/http".to_owned());
            let key_pair = AuthorityKeyPair::generate(&mut rng);
            let worker_key_pair = Ed25519Keys::generate(&mut rng);
            let account_key_pair = SuiKeyPair::Ed25519(Ed25519Keys::generate(&mut rng));
            let network_key_pair = Ed25519Keys::generate(&mut rng);
            let genesis_info = ValidatorGenesisInfo::from_base_ip(
                key_pair,
                worker_key_pair,
                account_key_pair,
                network_key_pair,
                Some(IpAddress::V4(zero)),
                ips[i].clone(),
                GenesisConfig::BENCHMARKS_PORT_OFFSET,
            );
            validators.push(
                ValidatorConfigInfo {
                    consensus_address,
                    consensus_internal_worker_address: None,
                    genesis_info,
                },
            );
            i = i + 1;
        }
        let offsets = Self::benchmark_gas_object_id_offsets(ips.len());
        let mut ranges: Vec<ObjectConfigRange> = Vec::new();
        let mut j: usize = 0;
        while j < offsets.len()
            invariant
                j <= offsets.len(),
                ranges@.len() == j,
                forall|k: int| 0 <= k < j ==> (#[trigger] ranges@[k]).is_benchmark_range(),
            decreases offsets.len() - j,
        {
            ranges.push(
                ObjectConfigRange {
                    offset: offsets[j],
                    count: BENCHMARKS_OBJECTS_PER_RANGE,
                    gas_value: u64::MAX,
                },
            );
            j = j + 1;
        }
        let gas_key = Self::benchmark_gas_key();
        let gas_address = gas_key.address();
        let account = AccountConfig {
            address: Some(gas_address),
            gas_objects: Vec::new(),
            gas_object_ranges: Some(ranges),
        };
        let mut accounts: Vec<AccountConfig> = Vec::new();
        accounts.push(account);
        GenesisConfig {
            validator_config_info: Some(validators),
            parameters: GenesisCeremonyParameters { chain_start_timestamp_ms: 0 },
            committee_size: ips.len(),
            grpc_load_shed: None,
            grpc_concurrency_limit: None,
            accounts,
        }
    }

    /// The key that owns every gas object of a configuration for benchmarks:
    /// the first Ed25519 key that the generator with the seed of the
    /// benchmarks gives.
    pub fn benchmark_gas_key() -> (key: SuiKeyPair)
        ensures
            key matches SuiKeyPair::Ed25519(keys) && keys.wf(),
    {
        let mut rng = seeded_rng(GenesisConfig::BENCHMARKS_RNG_SEED);
        SuiKeyPair::Ed25519(Ed25519Keys::generate(&mut rng))
    }

    /// The ids at which the ranges of gas objects of a configuration for
    /// benchmarks start: the first `quantity` ids that the generator with the
    /// seed of the benchmarks gives.
    pub fn benchmark_gas_object_id_offsets(quantity: usize) -> (offsets: Vec<ObjectID>)
        ensures
            offsets@.len() == quantity,
    {
        let mut rng = seeded_rng(GenesisConfig::BENCHMARKS_RNG_SEED);
        let mut offsets: Vec<ObjectID> = Vec::new();
        let mut i: usize = 0;
        while i < quantity
            invariant
                i <= quantity,
                offsets@.len() == i,
            decreases quantity - i,
        {
            offsets.push(ObjectID::random_from_rng(&mut rng));
            i = i + 1;
        }
        offsets
    }
}

impl Default for GenesisConfig {
    fn default() -> (config: Self)
        ensures
            config.has_default_settings(),
            config.accounts@.len() == 0,
    {
        GenesisConfig {
            validator_config_info: None,
            parameters: GenesisCeremonyParameters::default(),
            committee_size: DEFAULT_NUMBER_OF_AUTHORITIES,
            grpc_load_shed: None,
            grpc_concurrency_limit: Some(DEFAULT_GRPC_CONCURRENCY_LIMIT),
            accounts: Vec::new(),
        }
    }
}

} // verus!
