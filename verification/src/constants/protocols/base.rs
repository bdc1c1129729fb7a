use vstd::prelude::*;

verus! {

pub const AAVE_POOL: &'static str = "0xA238Dd80C259a72e81d7e4664a9801593F98d1c5";

pub const MORPHO: &'static str = "0xBBBBBbbBBb9cC5e90e3b3Af64bdAF62C37EEFFCb";

} // verus!
