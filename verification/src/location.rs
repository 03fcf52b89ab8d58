use vstd::prelude::*;
use crate::access::AccessMode;
use crate::point::{Point, PointV};
use crate::scalar::Real;

verus! {

/// The point values behind a sequence of points.
pub open spec fn points_view(s: Seq<Point>) -> Seq<PointV> {
    Seq::new(s.len(), |i: int| s[i]@)
}

/// The mobility capability: it owns the authoritative position state; the
/// scheduler only reads snapshots.  It lays out the stations once, places
/// the terminals, fixes the tick length, and advances the terminals one
/// tick at a time.  The strategy's observable state is its `StateV`
/// value.
pub trait Location: Sized {
    /// The mathematical value of the strategy's state.
    type StateV;

    /// The value of this strategy's state.
    spec fn lview(&self) -> Self::StateV;

    /// The station layout handed out, and the state after handing it out.
    spec fn bss_result_spec(l: Self::StateV) -> (Seq<PointV>, Seq<AccessMode>);

    spec fn bss_state_spec(l: Self::StateV) -> Self::StateV;

    /// The initial terminal positions handed out, and the state after.
    spec fn ues_result_spec(l: Self::StateV) -> Seq<PointV>;

    spec fn ues_state_spec(l: Self::StateV) -> Self::StateV;

    /// The tick length.
    spec fn tick_spec(l: Self::StateV) -> Seq<char>;

    /// The positions after one tick, and the state after that tick.
    spec fn update_result_spec(l: Self::StateV) -> Seq<PointV>;

    spec fn update_state_spec(l: Self::StateV) -> Self::StateV;

    /// The station positions and their access modes.
    fn setting_bss(&mut self) -> (r: (Vec<Point>, Vec<AccessMode>))
        ensures
            final(self).lview() == Self::bss_state_spec(old(self).lview()),
            points_view(r.0@) == Self::bss_result_spec(old(self).lview()).0,
            r.1@ == Self::bss_result_spec(old(self).lview()).1,
    ;

    /// The terminals' initial positions.
    fn init_ues(&mut self) -> (r: Vec<Point>)
        ensures
            final(self).lview() == Self::ues_state_spec(old(self).lview()),
            points_view(r@) == Self::ues_result_spec(old(self).lview()),
    ;

    /// The tick length the terminals move by.
    fn get_tick(&self) -> (r: Real)
        ensures
            r@ == Self::tick_spec(self.lview()),
    ;

    /// Advances every terminal by one tick and hands the new positions
    /// out.
    fn update_ues(&mut self) -> (r: Vec<Point>)
        ensures
            final(self).lview() == Self::update_state_spec(old(self).lview()),
            points_view(r@) == Self::update_result_spec(old(self).lview()),
    ;
}

} // verus!
