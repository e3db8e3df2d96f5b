//! Network configuration for connecting to Stellar (mainnet, testnet, or a custom network).

use vstd::prelude::*;
use vstd::string::*;

verus! {

/// The passphrase of the Stellar public network, used to sign and verify its transactions.
pub const PUBLIC_NETWORK_PASSPHRASE: &'static str = "Public Global Stellar Network ; September 2015";

/// The passphrase of the Stellar test network.
pub const TESTNET_NETWORK_PASSPHRASE: &'static str = "Test SDF Network ; September 2015";

/// Identifies which Stellar network a [`NetworkConfig`] targets.
#[derive(Debug, Clone, Copy, PartialEq, Eq, Structural)]
pub enum Network {
    Public,
    Testnet,
    Custom,
}

/// Configuration required to talk to a Stellar network: the Horizon and Soroban RPC endpoints,
/// and the network passphrase used for transaction signing.
#[derive(Debug, Clone, PartialEq, Eq)]
pub struct NetworkConfig {
    pub network: Network,
    pub horizon_url: String,
    pub rpc_url: String,
    pub passphrase: String,
}

impl NetworkConfig {
    /// The official Stellar public (mainnet) network.
    pub fn public() -> (config: Self)
        ensures
            config.network == Network::Public,
            config.horizon_url@ == "https://horizon.stellar.org"@,
            config.rpc_url@ == "https://mainnet.sorobanrpc.com"@,
            config.passphrase@ == PUBLIC_NETWORK_PASSPHRASE@,
    {
        Self {
            network: Network::Public,
            horizon_url: String::from_str("https://horizon.stellar.org"),
            rpc_url: String::from_str("https://mainnet.sorobanrpc.com"),
            passphrase: String::from_str(PUBLIC_NETWORK_PASSPHRASE),
        }
    }

    /// The official Stellar testnet.
    pub fn testnet() -> (config: Self)
        ensures
            config.network == Network::Testnet,
            config.horizon_url@ == "https://horizon-testnet.stellar.org"@,
            config.rpc_url@ == "https://soroban-testnet.stellar.org"@,
            config.passphrase@ == TESTNET_NETWORK_PASSPHRASE@,
    {
        Self {
            network: Network::Testnet,
            horizon_url: String::from_str("https://horizon-testnet.stellar.org"),
            rpc_url: String::from_str("https://soroban-testnet.stellar.org"),
            passphrase: String::from_str(TESTNET_NETWORK_PASSPHRASE),
        }
    }

    /// A custom network, e.g. a local `stellar-core` / RPC instance or a private network.
    pub fn custom(horizon_url: &str, rpc_url: &str, passphrase: &str) -> (config: Self)
        ensures
            config.network == Network::Custom,
            config.horizon_url@ == horizon_url@,
            config.rpc_url@ == rpc_url@,
            config.passphrase@ == passphrase@,
    {
        Self {
            network: Network::Custom,
            horizon_url: String::from_str(horizon_url),
            rpc_url: String::from_str(rpc_url),
            passphrase: String::from_str(passphrase),
        }
    }
}

} // verus!
