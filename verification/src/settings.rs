use vstd::prelude::*;
use crate::cpx::{Cpx, CpxV};
use crate::scalar::Real;

verus! {

/// The number of antenna elements of a terminal.
pub const ANTENNA_UE: usize = 2;

/// The number of antenna elements of a station.
pub const ANTENNA_BS: usize = 36;

/// The number of processor cores of a station.
pub const NUM_CORE: usize = 32;

/// The decimal form of a station core's computing capacity, in GFLOP/s.
pub open spec fn core_capacity_repr() -> Seq<char> {
    "1000"@
}

/// The capacity of one station core.
pub fn core_capacity() -> (r: Real)
    ensures
        r@ == core_capacity_repr(),
{
    Real::from_repr("1000")
}

/// The decimal form of the multi-core gain coefficient.
pub open spec fn multi_core_gain_repr() -> Seq<char> {
    "1.3"@
}

/// The gain coefficient of running on several cores at once.
pub fn multi_core_gain() -> (r: Real)
    ensures
        r@ == multi_core_gain_repr(),
{
    Real::from_repr("1.3")
}

/// The complex antenna gain used for every link.
pub open spec fn complex_channel_gain_spec() -> CpxV {
    CpxV { re: "10000000000"@, im: "10000000000"@ }
}

/// The complex antenna gain used for every link.
pub fn complex_channel_gain() -> (c: Cpx)
    ensures
        c@ == complex_channel_gain_spec(),
{
    Cpx::new(Real::from_repr("10000000000"), Real::from_repr("10000000000"))
}

} // verus!
