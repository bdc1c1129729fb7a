use vstd::prelude::*;

verus! {

pub const AAVE_POOL: &'static str = "0x794a61358D6845594F94dc1DB02A252b5b4814aD";

pub const MORPHO: &'static str = "0x";

pub const PENDLE: &'static str = "0x888888888889758F76e7103c6CbF23ABbF58F946";

} // verus!
