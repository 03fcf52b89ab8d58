use vstd::prelude::*;

verus! {

/// How a station shares its channel among its connected terminals.
#[derive(Clone, Copy, PartialEq, Eq)]
pub enum AccessMode {
    /// Non-orthogonal multiple access: terminals share one channel and are
    /// separated at decode time.
    NOMA,
    /// Frequency-division multiple access.
    FDMA,
}

} // verus!
