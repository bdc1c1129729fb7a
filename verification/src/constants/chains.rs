//! Chain identifiers.

use vstd::prelude::*;

verus! {

pub const BASE: u64 = 8453;

pub const ARBITRUM: u64 = 42161;

pub const ETHEREUM: u64 = 1;

} // verus!
