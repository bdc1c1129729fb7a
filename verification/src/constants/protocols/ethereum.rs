use vstd::prelude::*;

verus! {

pub const AAVE_POOL: &'static str = "0x87870Bca3F3fD6335C3F4ce8392D69350B4fA4E2";

pub const MORPHO: &'static str = "0xBBBBBbbBBb9cC5e90e3b3Af64bdAF62C37EEFFCb";

pub const SOMMELIER: &'static str = "0x7bad5DF5E11151Dc5Ee1a648800057C5c934c0d5";

} // verus!
