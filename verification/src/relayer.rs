//! What the chain relayer decides and encodes before anything is sent.

use vstd::prelude::*;
use crate::config::{VortexConfig, VortexConfigView};
use crate::hexcode::{hex_bytes, hex_decode, hex_encode, hex_lower, is_hex_text};
use crate::text::{
    decimal, make_padded_hash, padded_hash, push_chars, push_decimal, radix_digit_vec,
    radix_digits,
};
use crate::types::{LiquidationParams, ProcessingResult, RebalanceParams, YieldHarvestParams};

verus! {

/// The profit that a liquidation is taken to bring, in millionths of an
/// ether.
pub const ESTIMATED_PROFIT: u64 = 10_000;

/// Wei in one gwei.
pub const WEI_PER_GWEI: u64 = 1_000_000_000;

/// An amount of millionths as a decimal numeral of the unit: the whole part,
/// and after a point the fraction without its trailing zeros, if there is
/// one.
pub open spec fn micro_decimal(amount: u64) -> Seq<char> {
    let whole = decimal((amount / 1_000_000) as nat);
    let fraction = (amount % 1_000_000) as nat;
    if fraction == 0 {
        whole
    } else {
        whole + seq!['.'] + trimmed_fraction(fraction, 6)
    }
}

/// The `width` digits of a fraction, without its trailing zeros.
pub open spec fn trimmed_fraction(fraction: nat, width: nat) -> Seq<char>
    decreases width,
{
    if width == 0 || fraction == 0 {
        Seq::empty()
    } else if fraction % 10 == 0 {
        trimmed_fraction(fraction / 10, (width - 1) as nat)
    } else {
        crate::text::zero_padded(radix_digits(fraction, 10), width)
    }
}

/// Appends an amount of millionths as a decimal numeral of the unit.
pub fn push_micro_decimal(out: &mut String, amount: u64)
    ensures
        final(out)@ == old(out)@ + micro_decimal(amount),
{
    push_decimal(out, amount / 1_000_000);
    let mut fraction: u64 = amount % 1_000_000;
    if fraction != 0 {
        out.push('.');
        let mut width: usize = 6;
        proof {
            reveal_with_fuel(vstd::arithmetic::power::pow, 7);
        }
        while fraction % 10 == 0
            invariant
                0 < fraction < 1_000_000,
                width <= 6,
                trimmed_fraction(fraction as nat, width as nat) == trimmed_fraction(
                    (amount % 1_000_000) as nat,
                    6,
                ),
                fraction < vstd::arithmetic::power::pow(10, width as nat),
            decreases fraction,
        {
            proof {
                reveal_with_fuel(vstd::arithmetic::power::pow, 7);
            }
            fraction = fraction / 10;
            width = width - 1;
        }
        proof {
            reveal_with_fuel(vstd::arithmetic::power::pow, 7);
            assert(width > 0);
        }
        let digits = radix_digit_vec(fraction, 10);
        let ghost before = out@;
        if digits.len() < width {
            let pad: usize = width - digits.len();
            let mut i: usize = 0;
            while i < pad
                invariant
                    i <= pad,
                    out@ == before + Seq::new(i as nat, |j: int| '0'),
                decreases pad - i,
            {
                out.push('0');
                i = i + 1;
                assert(out@ =~= before + Seq::new(i as nat, |j: int| '0'));
            }
        }
        push_chars(out, &digits, 0);
        proof {
            assert(digits@.skip(0) =~= digits@);
            assert(out@ =~= before + crate::text::zero_padded(digits@, width as nat));
            assert(out@ =~= old(out)@ + micro_decimal(amount));
        }
    } else {
        assert(old(out)@ + decimal((amount / 1_000_000) as nat) =~= old(out)@ + micro_decimal(
            amount,
        ));
    }
}

/// The four bytes that a selector text writes.
fn selector(text: &str) -> (bytes: Result<Vec<u8>, String>)
    requires
        is_hex_text(text@),
    ensures
        bytes matches Ok(found) && found@ == hex_bytes(text@),
{
    match hex_decode(text) {
        Ok(found) => Ok(found),
        Err(_) => Err("invalid selector".to_owned()),
    }
}

/// Submits to a chain, directly where it holds a signing key.
pub struct ChainRelayer {
    config: VortexConfig,
    has_signer: bool,
}

impl ChainRelayer {
    /// The configuration.
    pub closed spec fn config(&self) -> VortexConfigView {
        self.config@
    }

    /// Whether the relayer holds a signing key.
    pub closed spec fn has_signer(&self) -> bool {
        self.has_signer
    }

    /// A relayer for the configuration, with or without a signing key.
    pub fn new(config: VortexConfig, has_signer: bool) -> (relayer: ChainRelayer)
        ensures
            relayer.config() == config@,
            relayer.has_signer() == has_signer,
    {
        ChainRelayer { config, has_signer }
    }

    /// The transaction hash under which a manifested result goes out: with
    /// a signing key `0x` and the call data in hexadecimal, else the padded
    /// hash of the event hash. A result that is not manifested is refused.
    pub fn submit_action(&self, result: &ProcessingResult) -> (sent: Result<String, String>)
        ensures
            match sent {
                Ok(hash) => result.manifested && hash@ == if self.has_signer() {
                    "0x"@ + hex_lower(hex_bytes("1234abcd"@))
                } else {
                    padded_hash(result.event_hash@)
                },
                Err(reason) => !result.manifested && reason@ == "Action not manifested"@,
            },
    {
        if !result.manifested {
            return Err("Action not manifested".to_owned());
        }
        let calldata = self.encode_propose_action(result);
        match calldata {
            Ok(data) => {
                if self.has_signer {
                    return self.submit_direct(data.as_slice());
                }
                Ok(make_padded_hash(result.event_hash.as_str()))
            },
            Err(reason) => Err(reason),
        }
    }

    /// The padded hash under which a liquidation goes out.
    pub fn submit_liquidation(&self, params: &LiquidationParams) -> (sent: Result<String, String>)
        ensures
            sent matches Ok(hash) && hash@ == padded_hash("liquidation"@),
    {
        Ok(make_padded_hash("liquidation"))
    }

    /// The padded hash under which a harvest goes out.
    pub fn submit_harvest(&self, params: &YieldHarvestParams) -> (sent: Result<String, String>)
        ensures
            sent matches Ok(hash) && hash@ == padded_hash("harvest"@),
    {
        Ok(make_padded_hash("harvest"))
    }

    /// The padded hash under which a rebalance goes out.
    pub fn submit_rebalance(&self, params: &RebalanceParams) -> (sent: Result<String, String>)
        ensures
            sent matches Ok(hash) && hash@ == padded_hash("rebalance"@),
    {
        Ok(make_padded_hash("rebalance"))
    }

    /// The padded hash under which a burn goes out.
    pub fn burn_to_null(&self, amount: u128) -> (sent: Result<String, String>)
        ensures
            sent matches Ok(hash) && hash@ == padded_hash("burn"@),
    {
        Ok(make_padded_hash("burn"))
    }

    /// The call data that proposes an action: its selector.
    pub fn encode_propose_action(&self, result: &ProcessingResult) -> (data: Result<Vec<u8>, String>)
        ensures
            data matches Ok(bytes) && bytes@ == hex_bytes("1234abcd"@),
    {
        proof {
            reveal_strlit("1234abcd");
        }
        selector("1234abcd")
    }

    /// The call data of a liquidation: its selector.
    pub fn encode_liquidation_call(&self, params: &LiquidationParams) -> (data: Result<
        Vec<u8>,
        String,
    >)
        ensures
            data matches Ok(bytes) && bytes@ == hex_bytes("00a718a9"@),
    {
        proof {
            reveal_strlit("00a718a9");
        }
        selector("00a718a9")
    }

    /// The call data of a harvest: its selector.
    pub fn encode_harvest_call(&self, params: &YieldHarvestParams) -> (data: Result<Vec<u8>, String>)
        ensures
            data matches Ok(bytes) && bytes@ == hex_bytes("4641257d"@),
    {
        proof {
            reveal_strlit("4641257d");
        }
        selector("4641257d")
    }

    /// The call data of a rebalance: its selector.
    pub fn encode_rebalance_call(&self, params: &RebalanceParams) -> (data: Result<Vec<u8>, String>)
        ensures
            data matches Ok(bytes) && bytes@ == hex_bytes("12345678"@),
    {
        proof {
            reveal_strlit("12345678");
        }
        selector("12345678")
    }

    /// The hash of a direct submission: `0x` and the call data in
    /// hexadecimal.
    pub fn submit_direct(&self, calldata: &[u8]) -> (sent: Result<String, String>)
        ensures
            sent matches Ok(hash) && hash@ == "0x"@ + hex_lower(calldata@),
    {
        let mut hash = "0x".to_owned();
        let digits = hex_encode(calldata);
        hash.append(digits.as_str());
        Ok(hash)
    }

    /// Queues a task for gasless execution; refused without an API key.
    pub fn queue_gelato_task(&self, calldata: &[u8], target: &str) -> (queued: Result<String, String>)
        ensures
            match queued {
                Ok(id) => self.config().relayer.gelato_api_key is Some && id@ == "gelato-task-id"@,
                Err(reason) => self.config().relayer.gelato_api_key is None && reason@
                    == "Gelato API key not configured"@,
            },
    {
        if self.config.relayer.gelato_api_key.is_none() {
            return Err("Gelato API key not configured".to_owned());
        }
        Ok("gelato-task-id".to_owned())
    }

    /// Queues a transaction for the safe.
    pub fn queue_safe_tx(&self, calldata: &[u8], target: &str, value: u128) -> (queued: Result<
        String,
        String,
    >)
        ensures
            queued matches Ok(hash) && hash@ == "safe-tx-hash"@,
    {
        Ok("safe-tx-hash".to_owned())
    }

    /// Whether a gas price in wei is acceptable: in whole gwei it does not
    /// exceed the configured limit.
    pub fn check_gas_price(&self, gas_price: u64) -> (acceptable: bool)
        ensures
            acceptable == (gas_price / WEI_PER_GWEI <= self.config().relayer.max_gas_price_gwei),
    {
        let max_gwei = self.config.relayer.max_gas_price_gwei;
        let current_gwei = gas_price / WEI_PER_GWEI;
        current_gwei <= max_gwei
    }

    /// The profit that a liquidation is estimated to bring, in millionths
    /// of an ether; refused where it lies below the configured minimum.
    pub fn estimate_profit(&self, params: &LiquidationParams) -> (estimate: Result<u64, String>)
        ensures
            match estimate {
                Ok(profit) => profit == ESTIMATED_PROFIT && ESTIMATED_PROFIT
                    >= self.config().relayer.min_profit_eth,
                Err(reason) => ESTIMATED_PROFIT < self.config().relayer.min_profit_eth && reason@
                    == "Profit "@ + micro_decimal(ESTIMATED_PROFIT) + " ETH below minimum "@
                    + micro_decimal(self.config().relayer.min_profit_eth) + " ETH"@,
            },
    {
        let min_profit = self.config.relayer.min_profit_eth;
        let estimated_profit = ESTIMATED_PROFIT;
        if estimated_profit < min_profit {
            let mut reason = "Profit ".to_owned();
            push_micro_decimal(&mut reason, estimated_profit);
            reason.append(" ETH below minimum ");
            push_micro_decimal(&mut reason, min_profit);
            reason.append(" ETH");
            return Err(reason);
        }
        Ok(estimated_profit)
    }
}

} // verus!
