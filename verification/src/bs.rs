use vstd::prelude::*;
use crate::access::AccessMode;
use crate::communication::Transmit;
use crate::computing::{ComputingResourceBlock, ComputingResourceBlockV, default_crb};
use crate::mimo::{ChannelGain, ChannelGainV};
use crate::packet::Packet;
use crate::point::{Point, PointV};

verus! {

/// The mathematical value of a station.
pub ghost struct BSV {
    pub id: Seq<char>,
    pub location: PointV,
    pub resource: ComputingResourceBlockV,
    pub cu: Seq<(Seq<char>, ChannelGainV)>,
    pub mode: AccessMode,
}

/// A base station: a fixed access point with a location, an access mode,
/// a computing capacity, and the mapping from each connected terminal's
/// id to the channel gain of that link.
pub struct BS {
    pub id: String,
    pub location: Point,
    pub computing_resource: ComputingResourceBlock,
    pub connected_users: Vec<(String, ChannelGain)>,
    pub access_mod: AccessMode,
}

impl View for BS {
    type V = BSV;

    open spec fn view(&self) -> BSV {
        BSV {
            id: self.id@,
            location: self.location@,
            resource: self.computing_resource@,
            cu: Seq::new(
                self.connected_users@.len(),
                |i: int| (self.connected_users@[i].0@, self.connected_users@[i].1@),
            ),
            mode: self.access_mod,
        }
    }
}

/// The association sequence with `k` bound to `v`: the first entry keyed
/// `k` is replaced, or the pair is appended when no entry has that key.
pub open spec fn upsert(
    s: Seq<(Seq<char>, ChannelGainV)>,
    k: Seq<char>,
    v: ChannelGainV,
) -> Seq<(Seq<char>, ChannelGainV)>
    decreases s.len(),
{
    if s.len() == 0 {
        seq![(k, v)]
    } else if s[0].0 == k {
        seq![(k, v)] + s.drop_first()
    } else {
        seq![s[0]] + upsert(s.drop_first(), k, v)
    }
}

/// Whether some entry of the association sequence is keyed `k`.
pub open spec fn cu_has(s: Seq<(Seq<char>, ChannelGainV)>, k: Seq<char>) -> bool {
    exists|i: int| 0 <= i < s.len() && s[i].0 == k
}

/// Upserting a key that sits first unmatched at position `i` rewrites
/// exactly that position.
pub proof fn lemma_upsert_found(
    s: Seq<(Seq<char>, ChannelGainV)>,
    k: Seq<char>,
    v: ChannelGainV,
    i: int,
)
    requires
        0 <= i < s.len(),
        s[i].0 == k,
        forall|m: int| 0 <= m < i ==> s[m].0 != k,
    ensures
        upsert(s, k, v) == s.update(i, (k, v)),
    decreases s.len(),
{
    if s[0].0 == k {
        assert(i == 0);
        assert(upsert(s, k, v) =~= s.update(0, (k, v)));
    } else {
        assert(i > 0);
        lemma_upsert_found(s.drop_first(), k, v, i - 1);
        assert(seq![s[0]] + s.drop_first().update(i - 1, (k, v)) =~= s.update(i, (k, v)));
    }
}

/// Upserting a key that no entry holds appends the pair.
pub proof fn lemma_upsert_missing(s: Seq<(Seq<char>, ChannelGainV)>, k: Seq<char>, v: ChannelGainV)
    requires
        forall|m: int| 0 <= m < s.len() ==> s[m].0 != k,
    ensures
        upsert(s, k, v) == s.push((k, v)),
    decreases s.len(),
{
    if s.len() == 0 {
        assert(upsert(s, k, v) =~= s.push((k, v)));
    } else {
        lemma_upsert_missing(s.drop_first(), k, v);
        assert(seq![s[0]] + s.drop_first().push((k, v)) =~= s.push((k, v)));
    }
}

/// After an upsert the key is present.
pub proof fn lemma_upsert_has(s: Seq<(Seq<char>, ChannelGainV)>, k: Seq<char>, v: ChannelGainV)
    ensures
        cu_has(upsert(s, k, v), k),
    decreases s.len(),
{
    if s.len() == 0 {
        assert(upsert(s, k, v)[0].0 == k);
    } else if s[0].0 == k {
        assert(upsert(s, k, v)[0].0 == k);
    } else {
        lemma_upsert_has(s.drop_first(), k, v);
        let inner = upsert(s.drop_first(), k, v);
        let j = choose|j: int| 0 <= j < inner.len() && inner[j].0 == k;
        assert(upsert(s, k, v)[j + 1].0 == k);
    }
}

/// An upsert keeps every other key exactly as it was.
pub proof fn lemma_upsert_frame(
    s: Seq<(Seq<char>, ChannelGainV)>,
    k: Seq<char>,
    v: ChannelGainV,
    k2: Seq<char>,
)
    requires
        k2 != k,
    ensures
        cu_has(upsert(s, k, v), k2) == cu_has(s, k2),
    decreases s.len(),
{
    if s.len() == 0 {
    } else if s[0].0 == k {
        let u = upsert(s, k, v);
        assert(forall|i: int| 1 <= i < u.len() ==> u[i] == s[i]);
        if cu_has(s, k2) {
            let i = choose|i: int| 0 <= i < s.len() && s[i].0 == k2;
            assert(u[i].0 == k2);
        }
        if cu_has(u, k2) {
            let i = choose|i: int| 0 <= i < u.len() && u[i].0 == k2;
            assert(s[i].0 == k2);
        }
    } else {
        lemma_upsert_frame(s.drop_first(), k, v, k2);
        let u = upsert(s, k, v);
        let inner = upsert(s.drop_first(), k, v);
        assert(forall|i: int| 1 <= i < u.len() ==> u[i] == inner[i - 1]);
        if cu_has(s, k2) {
            let i = choose|i: int| 0 <= i < s.len() && s[i].0 == k2;
            if i == 0 {
                assert(u[0].0 == k2);
            } else {
                assert(s.drop_first()[i - 1].0 == k2);
                let j = choose|j: int| 0 <= j < inner.len() && inner[j].0 == k2;
                assert(u[j + 1].0 == k2);
            }
        }
        if cu_has(u, k2) {
            let i = choose|i: int| 0 <= i < u.len() && u[i].0 == k2;
            if i == 0 {
                assert(s[0].0 == k2);
            } else {
                assert(inner[i - 1].0 == k2);
                let j = choose|j: int| 0 <= j < s.drop_first().len() && s.drop_first()[j].0 == k2;
                assert(s[j + 1].0 == k2);
            }
        }
    }
}

impl BS {
    /// A station at a fixed location with the given access mode and the
    /// default computing capacity; no terminal is connected yet.
    pub fn new(id: String, position: Point, mode: AccessMode) -> (bs: BS)
        ensures
            bs@ == (BSV {
                id: id@,
                location: position@,
                resource: default_crb(),
                cu: Seq::empty(),
                mode,
            }),
    {
        let bs = BS {
            id,
            location: position,
            computing_resource: ComputingResourceBlock::default(),
            connected_users: Vec::new(),
            access_mod: mode,
        };
        proof {
            assert(bs@.cu =~= Seq::<(Seq<char>, ChannelGainV)>::empty());
        }
        bs
    }

    /// A station set up for non-orthogonal multiple access.
    pub fn set_with_noma(id: String, position: Point) -> (bs: BS)
        ensures
            bs@ == (BSV {
                id: id@,
                location: position@,
                resource: default_crb(),
                cu: Seq::empty(),
                mode: AccessMode::NOMA,
            }),
    {
        BS::new(id, position, AccessMode::NOMA)
    }

    /// Reserved for a frequency-division set-up; builds nothing yet.
    pub fn set_with_fdma(id: String, position: Point) {
    }

    /// Records that the terminal with `ue_id` is connected over a link
    /// with the given channel gain: the association mapping gains or
    /// replaces that key.
    pub fn connect_ue(&mut self, ue_id: String, channel_gain: ChannelGain)
        ensures
            final(self)@ == (BSV { cu: upsert(old(self)@.cu, ue_id@, channel_gain@), ..old(self)@ }),
    {
        let n = self.connected_users.len();
        let mut idx: usize = 0;
        while idx < n && !(self.connected_users[idx].0 == ue_id)
            invariant
                idx <= n,
                n == self.connected_users@.len(),
                forall|m: int| 0 <= m < idx ==> self@.cu[m].0 != ue_id@,
            decreases n - idx,
        {
            idx = idx + 1;
        }
        if idx < n {
            proof {
                lemma_upsert_found(self@.cu, ue_id@, channel_gain@, idx as int);
            }
            self.connected_users[idx] = (ue_id, channel_gain);
            proof {
                assert(self@.cu =~= upsert(old(self)@.cu, ue_id@, channel_gain@));
            }
        } else {
            proof {
                lemma_upsert_missing(self@.cu, ue_id@, channel_gain@);
            }
            self.connected_users.push((ue_id, channel_gain));
            proof {
                assert(self@.cu =~= upsert(old(self)@.cu, ue_id@, channel_gain@));
            }
        }
    }

    /// Runs the decode phase, then the downlink-transmit phase, for this
    /// station under the given transport strategy.
    pub fn download_multicast<D: Transmit>(&mut self, download_impl: &mut D)
        requires
            D::ready_for(old(download_impl).tview(), old(self)@.id),
        ensures
            final(download_impl).tview() == D::transmit_spec(
                D::decode_spec(old(download_impl).tview(), old(self)@).0,
                D::decode_spec(old(download_impl).tview(), old(self)@).1,
            ).0,
            final(self)@ == D::transmit_spec(
                D::decode_spec(old(download_impl).tview(), old(self)@).0,
                D::decode_spec(old(download_impl).tview(), old(self)@).1,
            ).1,
            final(self)@.id == old(self)@.id,
            forall|k: Seq<char>| D::ready_for(final(download_impl).tview(), k) == D::ready_for(
                old(download_impl).tview(), k),
    {
        download_impl.decode_impl(self);
        download_impl.bs_down_transmit(self);
    }

    /// Reserved for a broadcast downlink; does nothing yet.
    pub fn download_broadcast<D: Transmit>(&self, download_impl: &mut D, packets: Vec<Packet>)
        ensures
            final(download_impl).tview() == old(download_impl).tview(),
    {
    }

    /// A copy of the association mapping: each connected terminal's id
    /// with the channel gain of its link.
    pub fn connected_ues(&self) -> (r: Vec<(String, ChannelGain)>)
        ensures
            Seq::new(r@.len(), |i: int| (r@[i].0@, r@[i].1@)) == self@.cu,
    {
        let mut out: Vec<(String, ChannelGain)> = Vec::new();
        let mut i: usize = 0;
        let n = self.connected_users.len();
        while i < n
            invariant
                i <= n,
                n == self.connected_users@.len(),
                out@.len() == i,
                forall|m: int| 0 <= m < i ==> (#[trigger] out@[m]).0@ == self@.cu[m].0
                    && out@[m].1@ == self@.cu[m].1,
            decreases n - i,
        {
            let entry = &self.connected_users[i];
            out.push((entry.0.clone(), entry.1.dup()));
            i = i + 1;
        }
        proof {
            assert(Seq::new(out@.len(), |i: int| (out@[i].0@, out@[i].1@)) =~= self@.cu);
        }
        out
    }

    /// Reserved for packet decoding against the computing capacity; does
    /// nothing yet.
    pub fn decode_packet(&mut self, packets: Vec<Packet>)
        ensures
            final(self)@ == old(self)@,
    {
    }
}

} // verus!
