use vstd::prelude::*;
use crate::bs::{BS, BSV};
use crate::ue::{UE, UEV};

verus! {

/// The station values behind a sequence of stations.
pub open spec fn bss_view(s: Seq<BS>) -> Seq<BSV> {
    Seq::new(s.len(), |i: int| s[i]@)
}

/// The terminal values behind a sequence of terminals.
pub open spec fn ues_view(s: Seq<UE>) -> Seq<UEV> {
    Seq::new(s.len(), |i: int| s[i]@)
}

/// The association capability: each tick, assign every terminal a station
/// and record the channel gain of the link on both sides.  An association
/// pass may rewrite associations and connected-user mappings, and nothing
/// else: it creates or destroys no entity, and it moves none.
pub trait Connect: Sized {
    /// What the strategy asks of the state it is handed.
    spec fn connect_req(&self, ues: Seq<UEV>, bss: Seq<BSV>) -> bool;

    /// The terminal and station values after one association pass.
    spec fn connect_spec(&self, ues: Seq<UEV>, bss: Seq<BSV>) -> (Seq<UEV>, Seq<BSV>);

    /// Runs one association pass over the full terminal and station sets.
    fn connect(&self, ues: &mut Vec<UE>, bss: &mut Vec<BS>)
        requires
            self.connect_req(ues_view(old(ues)@), bss_view(old(bss)@)),
        ensures
            ues_view(final(ues)@) == self.connect_spec(
                ues_view(old(ues)@),
                bss_view(old(bss)@),
            ).0,
            bss_view(final(bss)@) == self.connect_spec(
                ues_view(old(ues)@),
                bss_view(old(bss)@),
            ).1,
            final(ues)@.len() == old(ues)@.len(),
            final(bss)@.len() == old(bss)@.len(),
            forall|i: int|
                0 <= i < old(ues)@.len() ==> (#[trigger] final(ues)@[i])@.id == old(ues)@[i]@.id
                    && final(ues)@[i]@.position == old(ues)@[i]@.position,
            forall|j: int|
                0 <= j < old(bss)@.len() ==> (#[trigger] final(bss)@[j])@.id == old(bss)@[j]@.id
                    && final(bss)@[j]@.location == old(bss)@[j]@.location
                    && final(bss)@[j]@.mode == old(bss)@[j]@.mode,
    ;
}

/// The transport capability: three per-station phases, run in the fixed
/// order decode, compute, downlink-transmit.  A strategy is handed the
/// full station id set up front so it can pre-bind per-station behaviour;
/// invoking a phase for an unbound station id is a precondition
/// violation.  A phase may rewrite the station it is handed and the
/// strategy's own state; it keeps the station's id, and it keeps every
/// binding.  The strategy's observable state is its `StateV` value.
pub trait Transmit: Sized {
    /// The mathematical value of the strategy's state.
    type StateV;

    /// The value of this strategy's state.
    spec fn tview(&self) -> Self::StateV;

    /// Whether the phases are bound for the station with this id.
    spec fn ready_for(t: Self::StateV, bs_id: Seq<char>) -> bool;

    /// The strategy state after it is handed the station id set.
    spec fn ids_set_spec(t: Self::StateV, ids: Seq<Seq<char>>) -> Self::StateV;

    /// The strategy state and the station value after the decode phase.
    spec fn decode_spec(t: Self::StateV, bs: BSV) -> (Self::StateV, BSV);

    /// The strategy state and the station value after the compute phase.
    spec fn computing_spec(t: Self::StateV, bs: BSV) -> (Self::StateV, BSV);

    /// The strategy state and the station value after the downlink phase.
    spec fn transmit_spec(t: Self::StateV, bs: BSV) -> (Self::StateV, BSV);

    /// Hands the strategy the full station id set.
    fn set_bs_id(&mut self, id: Vec<String>)
        ensures
            final(self).tview() == Self::ids_set_spec(old(self).tview(), id.deep_view()),
    ;

    /// The decode phase: for non-orthogonal access, the shared signal is
    /// separated here.
    fn decode_impl(&mut self, bs: &mut BS)
        requires
            Self::ready_for(old(self).tview(), old(bs)@.id),
        ensures
            final(self).tview() == Self::decode_spec(old(self).tview(), old(bs)@).0,
            final(bs)@ == Self::decode_spec(old(self).tview(), old(bs)@).1,
            final(bs)@.id == old(bs)@.id,
            forall|k: Seq<char>| Self::ready_for(final(self).tview(), k) == Self::ready_for(
                old(self).tview(), k),
    ;

    /// The compute phase: whatever per-packet computation a strategy
    /// models as multi-core work.
    fn computing(&mut self, bs: &mut BS)
        requires
            Self::ready_for(old(self).tview(), old(bs)@.id),
        ensures
            final(self).tview() == Self::computing_spec(old(self).tview(), old(bs)@).0,
            final(bs)@ == Self::computing_spec(old(self).tview(), old(bs)@).1,
            final(bs)@.id == old(bs)@.id,
            forall|k: Seq<char>| Self::ready_for(final(self).tview(), k) == Self::ready_for(
                old(self).tview(), k),
    ;

    /// The downlink-transmit phase.
    fn bs_down_transmit(&mut self, bs: &mut BS)
        requires
            Self::ready_for(old(self).tview(), old(bs)@.id),
        ensures
            final(self).tview() == Self::transmit_spec(old(self).tview(), old(bs)@).0,
            final(bs)@ == Self::transmit_spec(old(self).tview(), old(bs)@).1,
            final(bs)@.id == old(bs)@.id,
            forall|k: Seq<char>| Self::ready_for(final(self).tview(), k) == Self::ready_for(
                old(self).tview(), k),
    ;
}

} // verus!
