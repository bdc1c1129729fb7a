//! The chain client's side of a transaction: which chain, which contract,
//! and the call data.

use vstd::prelude::*;
use vstd::utf8::encode_utf8;
use crate::constants::chains::{ARBITRUM, BASE};
use crate::digest::{keccak256, keccak256_digest};

verus! {

/// Where the contracts of a chain are.
#[derive(Debug, Clone)]
pub struct ChainConfig {
    pub rpc_url: String,
    pub chain_id: u64,
    pub dao_address: [u8; 20],
    pub null_office: [u8; 20],
}

/// The address `0x0000000000000000000000000000000000000369`.
pub open spec fn null_office_address() -> Seq<u8> {
    Seq::new(
        20,
        |i: int|
            if i == 18 {
                0x03u8
            } else if i == 19 {
                0x69u8
            } else {
                0u8
            },
    )
}

/// The zero address.
pub open spec fn zero_address() -> Seq<u8> {
    Seq::new(20, |i: int| 0u8)
}

/// The address of the null office.
fn null_office() -> (address: [u8; 20])
    ensures
        address@ == null_office_address(),
{
    let mut address: [u8; 20] = [0u8; 20];
    address[18] = 0x03;
    address[19] = 0x69;
    assert(address@ =~= null_office_address());
    address
}

impl ChainConfig {
    /// Base: chain 8453, with the contract still at the zero address.
    pub fn base() -> (config: ChainConfig)
        ensures
            config.rpc_url@ == "https://mainnet.base.org"@,
            config.chain_id == BASE,
            config.dao_address@ == zero_address(),
            config.null_office@ == null_office_address(),
    {
        let dao_address: [u8; 20] = [0u8; 20];
        assert(dao_address@ =~= zero_address());
        ChainConfig {
            rpc_url: "https://mainnet.base.org".to_owned(),
            chain_id: BASE,
            dao_address,
            null_office: null_office(),
        }
    }

    /// Arbitrum: chain 42161, with the contract still at the zero address.
    pub fn arbitrum() -> (config: ChainConfig)
        ensures
            config.rpc_url@ == "https://arb1.arbitrum.io/rpc"@,
            config.chain_id == ARBITRUM,
            config.dao_address@ == zero_address(),
            config.null_office@ == null_office_address(),
    {
        let dao_address: [u8; 20] = [0u8; 20];
        assert(dao_address@ =~= zero_address());
        ChainConfig {
            rpc_url: "https://arb1.arbitrum.io/rpc".to_owned(),
            chain_id: ARBITRUM,
            dao_address,
            null_office: null_office(),
        }
    }
}

/// A transaction as it is handed to the provider.
#[derive(Debug, Clone)]
pub struct TransactionPlan {
    pub to: [u8; 20],
    pub value: u128,
    pub data: Vec<u8>,
}

/// The call data of a function on an action: the first four bytes of the
/// Keccak-256 digest of the signature, then the 32 bytes of the hash.
pub open spec fn call_data(signature: Seq<char>, action_hash: Seq<u8>) -> Seq<u8> {
    keccak256_digest(encode_utf8(signature)).take(4) + action_hash
}

/// The call data of a function on an action.
fn encode_call(signature: &str, action_hash: &[u8; 32]) -> (data: Vec<u8>)
    ensures
        data@ == call_data(signature@, action_hash@),
{
    let digest = keccak256(signature.as_bytes());
    call_with_selector(&digest, action_hash)
}

/// The call data for the digest of a signature: its first four bytes, the
/// selector, then the 32 bytes of the hash.
pub fn call_with_selector(digest: &[u8; 32], action_hash: &[u8; 32]) -> (data: Vec<u8>)
    ensures
        data@ == digest@.take(4) + action_hash@,
{
    let mut data: Vec<u8> = Vec::new();
    let mut i: usize = 0;
    while i < 4
        invariant
            i <= 4,
            data@ == digest@.take(i as int),
        decreases 4 - i,
    {
        data.push(digest[i]);
        assert(digest@.take(i + 1) =~= digest@.take(i as int).push(digest@[i as int]));
        i = i + 1;
    }
    let mut k: usize = 0;
    while k < 32
        invariant
            k <= 32,
            data@ == digest@.take(4) + action_hash@.take(k as int),
        decreases 32 - k,
    {
        data.push(action_hash[k]);
        assert(action_hash@.take(k + 1) =~= action_hash@.take(k as int).push(
            action_hash@[k as int],
        ));
        assert(data@ =~= digest@.take(4) + action_hash@.take(k + 1));
        k = k + 1;
    }
    assert(action_hash@.take(32) =~= action_hash@);
    data
}

/// Prepares the transactions of the governance contract.
pub struct ChainClient {
    config: ChainConfig,
    has_wallet: bool,
}

impl ChainClient {
    /// The address of the governance contract.
    pub closed spec fn dao_address(&self) -> Seq<u8> {
        self.config.dao_address@
    }

    /// Whether the client holds a wallet.
    pub closed spec fn has_wallet(&self) -> bool {
        self.has_wallet
    }

    /// A client for a chain, with or without a wallet.
    pub fn new(config: ChainConfig, has_wallet: bool) -> (client: ChainClient)
        ensures
            client.dao_address() == config.dao_address@,
            client.has_wallet() == has_wallet,
    {
        ChainClient { config, has_wallet }
    }

    /// The chain that the client is for.
    pub fn config(&self) -> (config: &ChainConfig)
        ensures
            config.dao_address@ == self.dao_address(),
    {
        &self.config
    }

    /// The call data of `executeAction(bytes32)`.
    pub fn encode_execute_action(&self, action_hash: [u8; 32]) -> (data: Vec<u8>)
        ensures
            data@ == call_data("executeAction(bytes32)"@, action_hash@),
    {
        encode_call("executeAction(bytes32)", &action_hash)
    }

    /// The call data of `advancePhase(bytes32,string)`; the witness is not
    /// part of it.
    pub fn encode_advance_phase(&self, action_hash: [u8; 32], witness: &str) -> (data: Vec<u8>)
        ensures
            data@ == call_data("advancePhase(bytes32,string)"@, action_hash@),
    {
        encode_call("advancePhase(bytes32,string)", &action_hash)
    }

    /// The transaction that executes an action: a call of the governance
    /// contract without value. Refused without a wallet.
    pub fn execute_action(&self, action_hash: [u8; 32]) -> (plan: Result<TransactionPlan, String>)
        ensures
            match plan {
                Ok(tx) => self.has_wallet() && tx.to@ == self.dao_address() && tx.value == 0
                    && tx.data@ == call_data("executeAction(bytes32)"@, action_hash@),
                Err(reason) => !self.has_wallet() && reason@ == "Wallet required for transactions"@,
            },
    {
        if !self.has_wallet {
            return Err("Wallet required for transactions".to_owned());
        }
        Ok(
            TransactionPlan {
                to: self.config.dao_address,
                value: 0,
                data: self.encode_execute_action(action_hash),
            },
        )
    }

    /// The transaction that advances the phase of an action on chain.
    /// Refused without a wallet.
    pub fn advance_phase(&self, action_hash: [u8; 32], witness: String) -> (plan: Result<
        TransactionPlan,
        String,
    >)
        ensures
            match plan {
                Ok(tx) => self.has_wallet() && tx.to@ == self.dao_address() && tx.value == 0
                    && tx.data@ == call_data("advancePhase(bytes32,string)"@, action_hash@),
                Err(reason) => !self.has_wallet() && reason@ == "Wallet required for transactions"@,
            },
    {
        if !self.has_wallet {
            return Err("Wallet required for transactions".to_owned());
        }
        Ok(
            TransactionPlan {
                to: self.config.dao_address,
                value: 0,
                data: self.encode_advance_phase(action_hash, witness.as_str()),
            },
        )
    }
}

} // verus!
