use vstd::prelude::*;
use crate::scalar::Real;
use crate::settings::{NUM_CORE, core_capacity, core_capacity_repr, multi_core_gain, multi_core_gain_repr};

verus! {

/// The mathematical value of a computing resource block.
pub ghost struct ComputingResourceBlockV {
    pub multi_core: nat,
    pub core_capacity: Seq<char>,
    pub multi_core_gain: Seq<char>,
}

/// The computing capacity of a station: a number of cores, the capacity
/// of one core, and a coefficient for running on several cores at once.
/// It describes capacity; it does not schedule tasks itself.
pub struct ComputingResourceBlock {
    multi_core: usize,
    core_capacity: Real,
    multi_core_gain: Real,
}

impl View for ComputingResourceBlock {
    type V = ComputingResourceBlockV;

    closed spec fn view(&self) -> ComputingResourceBlockV {
        ComputingResourceBlockV {
            multi_core: self.multi_core as nat,
            core_capacity: self.core_capacity@,
            multi_core_gain: self.multi_core_gain@,
        }
    }
}

/// The block every station starts with.
pub open spec fn default_crb() -> ComputingResourceBlockV {
    ComputingResourceBlockV {
        multi_core: NUM_CORE as nat,
        core_capacity: core_capacity_repr(),
        multi_core_gain: multi_core_gain_repr(),
    }
}

impl ComputingResourceBlock {
    /// A block with the configured core count, capacity and gain.
    pub fn new() -> (r: Self)
        ensures
            r@ == default_crb(),
    {
        Self {
            multi_core: NUM_CORE,
            core_capacity: core_capacity(),
            multi_core_gain: multi_core_gain(),
        }
    }

    /// A copy holding the same capacity description.
    pub fn dup(&self) -> (r: Self)
        ensures
            r@ == self@,
    {
        Self {
            multi_core: self.multi_core,
            core_capacity: self.core_capacity.dup(),
            multi_core_gain: self.multi_core_gain.dup(),
        }
    }
}

impl Default for ComputingResourceBlock {
    fn default() -> (r: Self)
        ensures
            r@ == default_crb(),
    {
        ComputingResourceBlock::new()
    }
}

} // verus!
