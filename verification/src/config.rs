//! Chain and protocol configuration, with the defaults of each chain.

use vstd::prelude::*;
use crate::constants::addresses::{NULL_OFFICE, RELAYER_SAFE, RESOLVER_BASE};
use crate::constants::chains;
use crate::constants::protocols;
use crate::text::{text_eq, to_lowercase};

verus! {

/// An optional text as plain values.
pub open spec fn option_text(text: Option<String>) -> Option<Seq<char>> {
    match text {
        Some(inner) => Some(inner@),
        None => None,
    }
}

#[derive(Debug, Clone)]
pub struct OracleConfig {
    pub enabled: bool,
    pub private_key: Option<String>,
    pub submit_cooldown_ms: u64,
}

pub struct OracleConfigView {
    pub enabled: bool,
    pub private_key: Option<Seq<char>>,
    pub submit_cooldown_ms: u64,
}

impl View for OracleConfig {
    type V = OracleConfigView;

    open spec fn view(&self) -> OracleConfigView {
        OracleConfigView {
            enabled: self.enabled,
            private_key: option_text(self.private_key),
            submit_cooldown_ms: self.submit_cooldown_ms,
        }
    }
}

#[derive(Debug, Clone)]
pub struct ChainConfig {
    pub name: String,
    pub chain_id: u64,
    pub rpc_url: String,
    pub ws_url: Option<String>,
    pub block_time_ms: u64,
}

pub struct ChainConfigView {
    pub name: Seq<char>,
    pub chain_id: u64,
    pub rpc_url: Seq<char>,
    pub ws_url: Option<Seq<char>>,
    pub block_time_ms: u64,
}

impl View for ChainConfig {
    type V = ChainConfigView;

    open spec fn view(&self) -> ChainConfigView {
        ChainConfigView {
            name: self.name@,
            chain_id: self.chain_id,
            rpc_url: self.rpc_url@,
            ws_url: option_text(self.ws_url),
            block_time_ms: self.block_time_ms,
        }
    }
}

#[derive(Debug, Clone)]
pub struct MacedonConfig {
    pub api_url: String,
    pub poll_interval_ms: u64,
    pub health_check_interval_ms: u64,
}

pub struct MacedonConfigView {
    pub api_url: Seq<char>,
    pub poll_interval_ms: u64,
    pub health_check_interval_ms: u64,
}

impl View for MacedonConfig {
    type V = MacedonConfigView;

    open spec fn view(&self) -> MacedonConfigView {
        MacedonConfigView {
            api_url: self.api_url@,
            poll_interval_ms: self.poll_interval_ms,
            health_check_interval_ms: self.health_check_interval_ms,
        }
    }
}

#[derive(Debug, Clone)]
pub struct ContractAddresses {
    pub vortex_dao: String,
    pub resolver: String,
    pub null_office: String,
    pub relayer_safe: String,
    pub light_photonic_grid: String,
}

pub struct ContractAddressesView {
    pub vortex_dao: Seq<char>,
    pub resolver: Seq<char>,
    pub null_office: Seq<char>,
    pub relayer_safe: Seq<char>,
    pub light_photonic_grid: Seq<char>,
}

impl View for ContractAddresses {
    type V = ContractAddressesView;

    open spec fn view(&self) -> ContractAddressesView {
        ContractAddressesView {
            vortex_dao: self.vortex_dao@,
            resolver: self.resolver@,
            null_office: self.null_office@,
            relayer_safe: self.relayer_safe@,
            light_photonic_grid: self.light_photonic_grid@,
        }
    }
}

/// Settings of the relayer. `min_profit_eth` is in millionths of an ether.
#[derive(Debug, Clone)]
pub struct RelayerConfig {
    pub gelato_api_key: Option<String>,
    pub safe_address: String,
    pub max_gas_price_gwei: u64,
    pub min_profit_eth: u64,
}

pub struct RelayerConfigView {
    pub gelato_api_key: Option<Seq<char>>,
    pub safe_address: Seq<char>,
    pub max_gas_price_gwei: u64,
    pub min_profit_eth: u64,
}

impl View for RelayerConfig {
    type V = RelayerConfigView;

    open spec fn view(&self) -> RelayerConfigView {
        RelayerConfigView {
            gelato_api_key: option_text(self.gelato_api_key),
            safe_address: self.safe_address@,
            max_gas_price_gwei: self.max_gas_price_gwei,
            min_profit_eth: self.min_profit_eth,
        }
    }
}

#[derive(Debug, Clone)]
pub struct ProtocolConfig {
    pub aave: Option<String>,
    pub morpho: Option<String>,
    pub pendle: Option<String>,
    pub sommelier: Option<String>,
}

pub struct ProtocolConfigView {
    pub aave: Option<Seq<char>>,
    pub morpho: Option<Seq<char>>,
    pub pendle: Option<Seq<char>>,
    pub sommelier: Option<Seq<char>>,
}

impl View for ProtocolConfig {
    type V = ProtocolConfigView;

    open spec fn view(&self) -> ProtocolConfigView {
        ProtocolConfigView {
            aave: option_text(self.aave),
            morpho: option_text(self.morpho),
            pendle: option_text(self.pendle),
            sommelier: option_text(self.sommelier),
        }
    }
}

#[derive(Debug, Clone)]
pub struct VortexConfig {
    pub chain: ChainConfig,
    pub macedon: MacedonConfig,
    pub contracts: ContractAddresses,
    pub relayer: RelayerConfig,
    pub protocols: ProtocolConfig,
    pub oracle: OracleConfig,
}

pub struct VortexConfigView {
    pub chain: ChainConfigView,
    pub macedon: MacedonConfigView,
    pub contracts: ContractAddressesView,
    pub relayer: RelayerConfigView,
    pub protocols: ProtocolConfigView,
    pub oracle: OracleConfigView,
}

impl View for VortexConfig {
    type V = VortexConfigView;

    open spec fn view(&self) -> VortexConfigView {
        VortexConfigView {
            chain: self.chain@,
            macedon: self.macedon@,
            contracts: self.contracts@,
            relayer: self.relayer@,
            protocols: self.protocols@,
            oracle: self.oracle@,
        }
    }
}

/// The event source settings that every default shares.
pub open spec fn default_macedon(macedon_api: Seq<char>) -> MacedonConfigView {
    MacedonConfigView {
        api_url: macedon_api,
        poll_interval_ms: 3000,
        health_check_interval_ms: 30000,
    }
}

/// The contract addresses of the main networks.
pub open spec fn mainnet_contracts() -> ContractAddressesView {
    ContractAddressesView {
        vortex_dao: "0x0000000000000000000000000000000000000000"@,
        resolver: RESOLVER_BASE@,
        null_office: NULL_OFFICE@,
        relayer_safe: RELAYER_SAFE@,
        light_photonic_grid: "0x5555555555555555555555555555555555555555"@,
    }
}

/// The relayer settings of the main networks, for a gas price limit and a
/// minimum profit.
pub open spec fn mainnet_relayer(max_gas_price_gwei: u64, min_profit_eth: u64) -> RelayerConfigView {
    RelayerConfigView {
        gelato_api_key: None,
        safe_address: RELAYER_SAFE@,
        max_gas_price_gwei,
        min_profit_eth,
    }
}

/// The oracle settings of the main networks: switched off, one hour of
/// cooldown.
pub open spec fn mainnet_oracle() -> OracleConfigView {
    OracleConfigView { enabled: false, private_key: None, submit_cooldown_ms: 3600000 }
}

/// The defaults for Base.
pub open spec fn spec_base_config(macedon_api: Seq<char>) -> VortexConfigView {
    VortexConfigView {
        chain: ChainConfigView {
            name: "Base"@,
            chain_id: chains::BASE,
            rpc_url: "https://mainnet.base.org"@,
            ws_url: Some("wss://base-mainnet.g.alchemy.com/v2/"@),
            block_time_ms: 2000,
        },
        macedon: default_macedon(macedon_api),
        contracts: mainnet_contracts(),
        relayer: mainnet_relayer(50, 1000),
        protocols: ProtocolConfigView {
            aave: Some(protocols::base::AAVE_POOL@),
            morpho: Some(protocols::base::MORPHO@),
            pendle: None,
            sommelier: None,
        },
        oracle: mainnet_oracle(),
    }
}

/// The defaults for Base Sepolia.
pub open spec fn spec_sepolia_config(macedon_api: Seq<char>) -> VortexConfigView {
    VortexConfigView {
        chain: ChainConfigView {
            name: "Base Sepolia"@,
            chain_id: 84532,
            rpc_url: "https://sepolia.base.org"@,
            ws_url: Some("wss://base-sepolia.g.alchemy.com/v2/"@),
            block_time_ms: 2000,
        },
        macedon: default_macedon(macedon_api),
        contracts: ContractAddressesView {
            vortex_dao: "0x1111111111111111111111111111111111111111"@,
            resolver: "0x2222222222222222222222222222222222222222"@,
            null_office: "0x3333333333333333333333333333333333333333"@,
            relayer_safe: "0x4444444444444444444444444444444444444444"@,
            light_photonic_grid: "0x1eC353a2Be261F682945A13b6262Bca098ff0686"@,
        },
        relayer: RelayerConfigView {
            gelato_api_key: None,
            safe_address: "0x4444444444444444444444444444444444444444"@,
            max_gas_price_gwei: 10,
            min_profit_eth: 100,
        },
        protocols: ProtocolConfigView {
            aave: Some("0x55ADe4d9525c7e1d9c0a2b3c4d5e6f7g8h9i0j1"@),
            morpho: Some("0x66BBe5e0617f8g9h0i1j2k3l4m5n6o7p8q9r0"@),
            pendle: None,
            sommelier: None,
        },
        oracle: OracleConfigView { enabled: true, private_key: None, submit_cooldown_ms: 60000 },
    }
}

/// The defaults for Arbitrum.
pub open spec fn spec_arbitrum_config(macedon_api: Seq<char>) -> VortexConfigView {
    VortexConfigView {
        chain: ChainConfigView {
            name: "Arbitrum"@,
            chain_id: chains::ARBITRUM,
            rpc_url: "https://arb1.arbitrum.io/rpc"@,
            ws_url: Some("wss://arb-mainnet.g.alchemy.com/v2/"@),
            block_time_ms: 250,
        },
        macedon: default_macedon(macedon_api),
        contracts: mainnet_contracts(),
        relayer: mainnet_relayer(1, 100),
        protocols: ProtocolConfigView {
            aave: Some(protocols::arbitrum::AAVE_POOL@),
            morpho: None,
            pendle: Some(protocols::arbitrum::PENDLE@),
            sommelier: None,
        },
        oracle: mainnet_oracle(),
    }
}

/// The defaults for Ethereum.
pub open spec fn spec_ethereum_config(macedon_api: Seq<char>) -> VortexConfigView {
    VortexConfigView {
        chain: ChainConfigView {
            name: "Ethereum"@,
            chain_id: chains::ETHEREUM,
            rpc_url: "https://eth.llamarpc.com"@,
            ws_url: Some("wss://eth-mainnet.g.alchemy.com/v2/"@),
            block_time_ms: 12000,
        },
        macedon: default_macedon(macedon_api),
        contracts: mainnet_contracts(),
        relayer: mainnet_relayer(100, 10000),
        protocols: ProtocolConfigView {
            aave: Some(protocols::ethereum::AAVE_POOL@),
            morpho: Some(protocols::ethereum::MORPHO@),
            pendle: None,
            sommelier: Some(protocols::ethereum::SOMMELIER@),
        },
        oracle: mainnet_oracle(),
    }
}

/// The defaults that a chain name selects, by its lowercase form:
/// `sepolia` and `testnet` mean Base Sepolia, anything else Base.
pub open spec fn spec_default_for_chain(lower_chain: Seq<char>, macedon_api: Seq<char>) -> VortexConfigView {
    if lower_chain == "sepolia"@ || lower_chain == "testnet"@ {
        spec_sepolia_config(macedon_api)
    } else {
        spec_base_config(macedon_api)
    }
}

/// The event source settings that every default shares.
fn macedon_defaults(macedon_api: &str) -> (config: MacedonConfig)
    ensures
        config@ == default_macedon(macedon_api@),
{
    MacedonConfig {
        api_url: macedon_api.to_owned(),
        poll_interval_ms: 3000,
        health_check_interval_ms: 30000,
    }
}

/// The contract addresses of the main networks.
fn mainnet_contract_addresses() -> (contracts: ContractAddresses)
    ensures
        contracts@ == mainnet_contracts(),
{
    ContractAddresses {
        vortex_dao: "0x0000000000000000000000000000000000000000".to_owned(),
        resolver: RESOLVER_BASE.to_owned(),
        null_office: NULL_OFFICE.to_owned(),
        relayer_safe: RELAYER_SAFE.to_owned(),
        light_photonic_grid: "0x5555555555555555555555555555555555555555".to_owned(),
    }
}

/// The relayer settings of the main networks.
fn mainnet_relayer_config(max_gas_price_gwei: u64, min_profit_eth: u64) -> (relayer: RelayerConfig)
    ensures
        relayer@ == mainnet_relayer(max_gas_price_gwei, min_profit_eth),
{
    RelayerConfig {
        gelato_api_key: None,
        safe_address: RELAYER_SAFE.to_owned(),
        max_gas_price_gwei,
        min_profit_eth,
    }
}

/// The oracle settings of the main networks.
fn mainnet_oracle_config() -> (oracle: OracleConfig)
    ensures
        oracle@ == mainnet_oracle(),
{
    OracleConfig { enabled: false, private_key: None, submit_cooldown_ms: 3600000 }
}

impl VortexConfig {
    /// The defaults of the chain that `chain` names, whatever its case:
    /// `sepolia` and `testnet` select Base Sepolia, every other name Base.
    pub fn default_for_chain(chain: &str, macedon_api: &str) -> (config: VortexConfig)
        ensures
            config@ == spec_default_for_chain(crate::text::lowercase(chain@), macedon_api@),
    {
        let lower = to_lowercase(chain);
        Self::default_for_lowercase(lower.as_str(), macedon_api)
    }

    /// The defaults of the chain whose name in lowercase is `lower_chain`.
    pub fn default_for_lowercase(lower_chain: &str, macedon_api: &str) -> (config: VortexConfig)
        ensures
            config@ == spec_default_for_chain(lower_chain@, macedon_api@),
    {
        if text_eq(lower_chain, "sepolia") || text_eq(lower_chain, "testnet") {
            Self::sepolia_config(macedon_api)
        } else {
            Self::base_config(macedon_api)
        }
    }

    /// The defaults for Base.
    pub fn base_config(macedon_api: &str) -> (config: VortexConfig)
        ensures
            config@ == spec_base_config(macedon_api@),
    {
        VortexConfig {
            chain: ChainConfig {
                name: "Base".to_owned(),
                chain_id: chains::BASE,
                rpc_url: "https://mainnet.base.org".to_owned(),
                ws_url: Some("wss://base-mainnet.g.alchemy.com/v2/".to_owned()),
                block_time_ms: 2000,
            },
            macedon: macedon_defaults(macedon_api),
            contracts: mainnet_contract_addresses(),
            relayer: mainnet_relayer_config(50, 1000),
            protocols: ProtocolConfig {
                aave: Some(protocols::base::AAVE_POOL.to_owned()),
                morpho: Some(protocols::base::MORPHO.to_owned()),
                pendle: None,
                sommelier: None,
            },
            oracle: mainnet_oracle_config(),
        }
    }

    /// The defaults for Base Sepolia.
    pub fn sepolia_config(macedon_api: &str) -> (config: VortexConfig)
        ensures
            config@ == spec_sepolia_config(macedon_api@),
    {
        VortexConfig {
            chain: ChainConfig {
                name: "Base Sepolia".to_owned(),
                chain_id: 84532,
                rpc_url: "https://sepolia.base.org".to_owned(),
                ws_url: Some("wss://base-sepolia.g.alchemy.com/v2/".to_owned()),
                block_time_ms: 2000,
            },
            macedon: macedon_defaults(macedon_api),
            contracts: ContractAddresses {
                vortex_dao: "0x1111111111111111111111111111111111111111".to_owned(),
                resolver: "0x2222222222222222222222222222222222222222".to_owned(),
                null_office: "0x3333333333333333333333333333333333333333".to_owned(),
                relayer_safe: "0x4444444444444444444444444444444444444444".to_owned(),
                light_photonic_grid: "0x1eC353a2Be261F682945A13b6262Bca098ff0686".to_owned(),
            },
            relayer: RelayerConfig {
                gelato_api_key: None,
                safe_address: "0x4444444444444444444444444444444444444444".to_owned(),
                max_gas_price_gwei: 10,
                min_profit_eth: 100,
            },
            protocols: ProtocolConfig {
                aave: Some("0x55ADe4d9525c7e1d9c0a2b3c4d5e6f7g8h9i0j1".to_owned()),
                morpho: Some("0x66BBe5e0617f8g9h0i1j2k3l4m5n6o7p8q9r0".to_owned()),
                pendle: None,
                sommelier: None,
            },
            oracle: OracleConfig { enabled: true, private_key: None, submit_cooldown_ms: 60000 },
        }
    }

    /// The defaults for Arbitrum.
    pub fn arbitrum_config(macedon_api: &str) -> (config: VortexConfig)
        ensures
            config@ == spec_arbitrum_config(macedon_api@),
    {
        VortexConfig {
            chain: ChainConfig {
                name: "Arbitrum".to_owned(),
                chain_id: chains::ARBITRUM,
                rpc_url: "https://arb1.arbitrum.io/rpc".to_owned(),
                ws_url: Some("wss://arb-mainnet.g.alchemy.com/v2/".to_owned()),
                block_time_ms: 250,
            },
            macedon: macedon_defaults(macedon_api),
            contracts: mainnet_contract_addresses(),
            relayer: mainnet_relayer_config(1, 100),
            protocols: ProtocolConfig {
                aave: Some(protocols::arbitrum::AAVE_POOL.to_owned()),
                morpho: None,
                pendle: Some(protocols::arbitrum::PENDLE.to_owned()),
                sommelier: None,
            },
            oracle: mainnet_oracle_config(),
        }
    }

    /// The defaults for Ethereum.
    pub fn ethereum_config(macedon_api: &str) -> (config: VortexConfig)
        ensures
            config@ == spec_ethereum_config(macedon_api@),
    {
        VortexConfig {
            chain: ChainConfig {
                name: "Ethereum".to_owned(),
                chain_id: chains::ETHEREUM,
                rpc_url: "https://eth.llamarpc.com".to_owned(),
                ws_url: Some("wss://eth-mainnet.g.alchemy.com/v2/".to_owned()),
                block_time_ms: 12000,
            },
            macedon: macedon_defaults(macedon_api),
            contracts: mainnet_contract_addresses(),
            relayer: mainnet_relayer_config(100, 10000),
            protocols: ProtocolConfig {
                aave: Some(protocols::ethereum::AAVE_POOL.to_owned()),
                morpho: Some(protocols::ethereum::MORPHO.to_owned()),
                pendle: None,
                sommelier: Some(protocols::ethereum::SOMMELIER.to_owned()),
            },
            oracle: mainnet_oracle_config(),
        }
    }
}

} // verus!
