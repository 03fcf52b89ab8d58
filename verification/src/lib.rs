use vstd::prelude::*;

verus! {

pub mod access;
pub mod bs;
pub mod communication;
pub mod computing;
pub mod connect_default;
pub mod cpx;
pub mod errors;
pub mod location;
pub mod mimo;
pub mod movement_default;
pub mod packet;
pub mod point;
pub mod scalar;
pub mod scheduler;
pub mod settings;
pub mod strnum;
pub mod transmit_default;
pub mod ue;

} // verus!
