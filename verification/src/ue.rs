use vstd::prelude::*;
use crate::communication::{Connect, Transmit};
use crate::mimo::{ChannelGain, ChannelGainV, channel_gain_los, los_gain_spec};
use crate::packet::Packet;
use crate::point::{Point, PointV, aov_2d_spec};
use crate::scalar::Real;
use crate::settings::{ANTENNA_BS, ANTENNA_UE, complex_channel_gain, complex_channel_gain_spec};

verus! {

/// The mathematical value of a terminal.
pub ghost struct UEV {
    pub id: Seq<char>,
    pub position: PointV,
    pub channel_gain: Option<ChannelGainV>,
    pub bs: Option<Seq<char>>,
}

/// The value behind an optional id.
pub open spec fn option_str_view(o: Option<String>) -> Option<Seq<char>> {
    match o {
        Some(s) => Some(s@),
        None => None,
    }
}

/// The value behind an optional gain matrix.
pub open spec fn option_gain_view(o: Option<ChannelGain>) -> Option<ChannelGainV> {
    match o {
        Some(g) => Some(g@),
        None => None,
    }
}

/// A terminal: a moving piece of user equipment.  Its position is
/// overwritten every tick by the mobility strategy; its association and
/// channel gain are overwritten every tick by the association strategy.
pub struct UE {
    pub id: String,
    pub position: Point,
    pub channel_gain: Option<ChannelGain>,
    pub bs: Option<String>,
}

impl View for UE {
    type V = UEV;

    open spec fn view(&self) -> UEV {
        UEV {
            id: self.id@,
            position: self.position@,
            channel_gain: option_gain_view(self.channel_gain),
            bs: option_str_view(self.bs),
        }
    }
}

/// The downlink gain of a link from a station at `bs_loc` to a terminal
/// at `pos`: the transmit angle is the 90-degree boresight, the receive
/// angle is the terminal's angle of arrival toward the station.
pub open spec fn ue_gain_spec(pos: PointV, bs_loc: PointV) -> ChannelGainV {
    los_gain_spec(
        complex_channel_gain_spec(),
        ANTENNA_BS as nat,
        ANTENNA_UE as nat,
        "90"@,
        aov_2d_spec(pos, bs_loc),
    )
}

impl UE {
    /// A terminal at its initial position, not yet associated.
    pub fn new(id: String, position: Point) -> (ue: UE)
        ensures
            ue@ == (UEV { id: id@, position: position@, channel_gain: None, bs: None }),
    {
        UE { id, position, channel_gain: None, bs: None }
    }

    /// Connection requests are handled on the scheduler's side; nothing
    /// happens here yet.
    pub fn connect<C: Connect>(&mut self, connect_impl: C)
        ensures
            final(self)@ == old(self)@,
    {
    }

    /// Uplink unicast; nothing happens here yet.
    pub fn upload<U: Transmit>(&self, upload_impl: U, packets: Vec<Packet>) {
    }

    /// Associates this terminal with the station `bs_id` at `bs_location`:
    /// records the station's id, computes and records the downlink channel
    /// gain, and hands a copy of that gain back.
    pub fn set_bs(&mut self, bs_id: String, bs_location: &Point) -> (r: ChannelGain)
        ensures
            final(self)@ == (UEV {
                bs: Some(bs_id@),
                channel_gain: Some(ue_gain_spec(old(self)@.position, bs_location@)),
                ..old(self)@
            }),
            r@ == ue_gain_spec(old(self)@.position, bs_location@),
    {
        let theta_t = Real::from_repr("90");
        let theta_r = self.position.aov_2d(bs_location);
        let gain = channel_gain_los(
            &complex_channel_gain(),
            ANTENNA_BS,
            ANTENNA_UE,
            &theta_t,
            &theta_r,
        );
        let out = gain.dup();
        self.bs = Some(bs_id);
        self.channel_gain = Some(gain);
        out
    }

    /// The id of the station this terminal is associated with, if any.
    pub fn target_bs(&self) -> (r: Option<String>)
        ensures
            option_str_view(r) == self@.bs,
    {
        match &self.bs {
            Some(s) => Some(s.clone()),
            None => None,
        }
    }
}

} // verus!
