//! Contract addresses.

use vstd::prelude::*;

verus! {

/// Burn address of the null office.
pub const NULL_OFFICE: &'static str = "0x0000000000000000000000000000000000000369";

/// Resolver on Base.
pub const RESOLVER_BASE: &'static str = "0x369000000000000000000000000000000000432";

/// Resolver on Arbitrum.
pub const RESOLVER_ARBITRUM: &'static str = "0x369000000000000000000000000000000000432";

/// Resolver on Ethereum.
pub const RESOLVER_ETH: &'static str = "0x369000000000000000000000000000000000432";

/// The relayer's safe.
pub const RELAYER_SAFE: &'static str = "0x432000000000000000000000000000000000369";

} // verus!
