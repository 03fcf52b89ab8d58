use vstd::prelude::*;
use crate::bs::{BS, BSV, cu_has, upsert};
use crate::communication::{Connect, bss_view, ues_view};
use crate::errors::NsError;
use crate::point::{PointV, distance_spec};
use crate::scalar::bits_of;
use crate::ue::{UE, UEV, ue_gain_spec};

verus! {

/// The bit pattern of 100.0, the service radius: a station serves a
/// terminal when their distance does not exceed it.  Distances are
/// non-negative doubles, so unsigned order of their bit patterns is their
/// numeric order.
pub const MAX_DISTANCE_BITS: u64 = 0x4059000000000000;

/// The distance from a station at `b` to a terminal at `u`, as the
/// algorithm computes it, by its bit pattern.
pub open spec fn dist_bits(u: PointV, b: PointV) -> u64 {
    bits_of(distance_spec(b, u))
}

/// Whether a station at `b` can serve a terminal at `u`.
pub open spec fn in_range(u: PointV, b: PointV) -> bool {
    dist_bits(u, b) <= MAX_DISTANCE_BITS
}

/// The station chosen among the first `n`: the one nearest to `u` within
/// the service radius, the later one on equal distances, or nothing if
/// none of them is in range.
pub open spec fn best_upto(bss: Seq<BSV>, u: PointV, n: nat) -> Option<int>
    decreases n,
{
    if n == 0 {
        None
    } else {
        let prev = best_upto(bss, u, (n - 1) as nat);
        let d = dist_bits(u, bss[n - 1].location);
        if d <= MAX_DISTANCE_BITS {
            match prev {
                None => Some(n - 1),
                Some(j) => if d <= dist_bits(u, bss[j].location) {
                    Some(n - 1)
                } else {
                    Some(j)
                },
            }
        } else {
            prev
        }
    }
}

/// The station chosen for a terminal at `u`, over the whole station set.
pub open spec fn chosen_station(bss: Seq<BSV>, u: PointV) -> Option<int> {
    best_upto(bss, u, bss.len())
}

/// The association pass from terminal `i` on: each terminal in turn is
/// bound to its chosen station and recorded in that station's mapping; a
/// terminal with no station in range is left as it is.
pub open spec fn connect_fold(ues: Seq<UEV>, bss: Seq<BSV>, i: nat) -> (Seq<UEV>, Seq<BSV>)
    decreases ues.len() - i,
{
    if i >= ues.len() {
        (ues, bss)
    } else {
        let u = ues[i as int];
        match chosen_station(bss, u.position) {
            None => connect_fold(ues, bss, i + 1),
            Some(j) => {
                let gain = ue_gain_spec(u.position, bss[j].location);
                let ues2 = ues.update(
                    i as int,
                    UEV { bs: Some(bss[j].id), channel_gain: Some(gain), ..u },
                );
                let bss2 = bss.update(j, BSV { cu: upsert(bss[j].cu, u.id, gain), ..bss[j] });
                connect_fold(ues2, bss2, i + 1)
            },
        }
    }
}

/// The default association strategy: brute force over every
/// terminal-station pair.
pub struct DefaultConnectImpl {}

impl Connect for DefaultConnectImpl {
    open spec fn connect_req(&self, ues: Seq<UEV>, bss: Seq<BSV>) -> bool {
        true
    }

    open spec fn connect_spec(&self, ues: Seq<UEV>, bss: Seq<BSV>) -> (Seq<UEV>, Seq<BSV>) {
        connect_fold(ues, bss, 0)
    }

    /// For each terminal, scan all stations, keep the nearest one within
    /// the service radius, and record the association on both sides with
    /// the channel gain of the link.
    fn connect(&self, ues: &mut Vec<UE>, bss: &mut Vec<BS>) {
        let nu = ues.len();
        let nb = bss.len();
        let ghost orig_u = ues_view(ues@);
        let ghost orig_b = bss_view(bss@);
        let mut i: usize = 0;
        while i < nu
            invariant
                i <= nu,
                nu == ues@.len(),
                nb == bss@.len(),
                connect_fold(ues_view(ues@), bss_view(bss@), i as nat) == connect_fold(
                    orig_u, orig_b, 0),
                forall|m: int| 0 <= m < nu ==> (#[trigger] ues@[m])@.id == orig_u[m].id
                    && ues@[m]@.position == orig_u[m].position,
                forall|m: int| 0 <= m < nb ==> (#[trigger] bss@[m])@.id == orig_b[m].id
                    && bss@[m]@.location == orig_b[m].location
                    && bss@[m]@.mode == orig_b[m].mode,
            decreases nu - i,
        {
            let ghost cur_u = ues_view(ues@);
            let ghost cur_b = bss_view(bss@);
            let mut best_idx: usize = 0;
            let mut best_bits: u64 = 0;
            let mut has_best: bool = false;
            let mut j: usize = 0;
            while j < nb
                invariant
                    i < nu,
                    j <= nb,
                    nu == ues@.len(),
                    nb == bss@.len(),
                    ues_view(ues@) == cur_u,
                    bss_view(bss@) == cur_b,
                    has_best == (best_upto(cur_b, cur_u[i as int].position, j as nat) is Some),
                    has_best ==> best_idx < nb && best_upto(cur_b, cur_u[i as int].position,
                        j as nat) == Some(best_idx as int) && best_bits == dist_bits(
                        cur_u[i as int].position, cur_b[best_idx as int].location)
                        && best_bits <= MAX_DISTANCE_BITS,
                decreases nb - j,
            {
                let d = bss[j].location.distance_with(&ues[i].position);
                let db = d.bits();
                if db <= MAX_DISTANCE_BITS {
                    if !has_best || db <= best_bits {
                        best_idx = j;
                        best_bits = db;
                        has_best = true;
                    }
                }
                j = j + 1;
            }
            if has_best {
                let bs_id = bss[best_idx].id.clone();
                let bs_loc = bss[best_idx].location.dup();
                let gain = ues[i].set_bs(bs_id, &bs_loc);
                let uid = ues[i].id.clone();
                bss[best_idx].connect_ue(uid, gain);
                proof {
                    let u = cur_u[i as int];
                    let jj = best_idx as int;
                    let g = ue_gain_spec(u.position, cur_b[jj].location);
                    assert(chosen_station(cur_b, u.position) == Some(jj));
                    assert(ues_view(ues@) =~= cur_u.update(
                        i as int,
                        UEV { bs: Some(cur_b[jj].id), channel_gain: Some(g), ..u },
                    ));
                    assert(bss_view(bss@) =~= cur_b.update(
                        jj,
                        BSV { cu: upsert(cur_b[jj].cu, u.id, g), ..cur_b[jj] },
                    ));
                }
            } else {
                proof {
                    assert(chosen_station(cur_b, cur_u[i as int].position) is None);
                }
            }
            i = i + 1;
        }
        proof {
            assert(connect_fold(ues_view(ues@), bss_view(bss@), nu as nat) == (
                ues_view(ues@),
                bss_view(bss@),
            ));
        }
    }
}

impl DefaultConnectImpl {
    /// The association pass behind a coverage check: it runs only when
    /// every terminal has some station within the service radius, and
    /// reports the uncovered terminal otherwise, touching nothing.
    pub fn try_connect(&self, ues: &mut Vec<UE>, bss: &mut Vec<BS>) -> (r: Result<(), NsError>)
        ensures
            r is Ok <==> (forall|i: int|
                0 <= i < old(ues)@.len() ==> chosen_station(
                    bss_view(old(bss)@),
                    (#[trigger] old(ues)@[i])@.position,
                ) is Some),
            r is Ok ==> ues_view(final(ues)@) == connect_fold(
                ues_view(old(ues)@), bss_view(old(bss)@), 0).0 && bss_view(final(bss)@)
                == connect_fold(ues_view(old(ues)@), bss_view(old(bss)@), 0).1,
            r is Err ==> final(ues)@ == old(ues)@ && final(bss)@ == old(bss)@,
    {
        let nu = ues.len();
        let nb = bss.len();
        let mut i: usize = 0;
        while i < nu
            invariant
                i <= nu,
                nu == ues@.len(),
                nb == bss@.len(),
                ues@ == old(ues)@,
                bss@ == old(bss)@,
                forall|m: int| 0 <= m < i ==> chosen_station(
                    bss_view(bss@), (#[trigger] ues@[m])@.position) is Some,
            decreases nu - i,
        {
            let mut j: usize = 0;
            let mut covered: bool = false;
            while j < nb
                invariant
                    i < nu,
                    j <= nb,
                    nu == ues@.len(),
                    nb == bss@.len(),
                    ues@ == old(ues)@,
                    bss@ == old(bss)@,
                    covered == (best_upto(bss_view(bss@), ues@[i as int]@.position, j as nat)
                        is Some),
                decreases nb - j,
            {
                let d = bss[j].location.distance_with(&ues[i].position);
                if d.bits() <= MAX_DISTANCE_BITS {
                    covered = true;
                }
                j = j + 1;
            }
            if !covered {
                return Err(NsError::UncoveredTerminal);
            }
            i = i + 1;
        }
        self.connect(ues, bss);
        Ok(())
    }
}


/// The chosen index, when there is one, names a station of the prefix.
pub proof fn lemma_best_upto_bounds(bss: Seq<BSV>, u: PointV, n: nat)
    ensures
        best_upto(bss, u, n) matches Some(j) ==> 0 <= j < n,
    decreases n,
{
    if n > 0 {
        lemma_best_upto_bounds(bss, u, (n - 1) as nat);
    }
}

/// The chosen station is in range and nearest: among the stations within
/// the service radius, none lies nearer, in the bit order of the
/// non-negative distances; and nothing is chosen exactly when no station
/// is in range.
pub proof fn lemma_best_upto_minimal(bss: Seq<BSV>, u: PointV, n: nat)
    requires
        n <= bss.len(),
    ensures
        best_upto(bss, u, n) matches Some(j) ==> in_range(u, bss[j].location) && forall|m: int|
            0 <= m < n && in_range(u, (#[trigger] bss[m]).location) ==> dist_bits(
                u,
                bss[best_upto(bss, u, n).unwrap()].location,
            ) <= dist_bits(u, bss[m].location),
        best_upto(bss, u, n) is None ==> forall|m: int|
            0 <= m < n ==> !in_range(u, (#[trigger] bss[m]).location),
    decreases n,
{
    if n > 0 {
        lemma_best_upto_bounds(bss, u, (n - 1) as nat);
        lemma_best_upto_minimal(bss, u, (n - 1) as nat);
    }
}

/// The chosen station depends on the stations' locations alone: two
/// station sequences that agree on length and locations choose alike.
pub proof fn lemma_best_upto_locations(bss1: Seq<BSV>, bss2: Seq<BSV>, u: PointV, n: nat)
    requires
        bss1.len() == bss2.len(),
        n <= bss1.len(),
        forall|m: int| 0 <= m < bss1.len() ==> (#[trigger] bss1[m]).location == bss2[m].location,
    ensures
        best_upto(bss1, u, n) == best_upto(bss2, u, n),
    decreases n,
{
    if n > 0 {
        lemma_best_upto_bounds(bss1, u, (n - 1) as nat);
        lemma_best_upto_locations(bss1, bss2, u, (n - 1) as nat);
    }
}

/// The association pass touches only associations and mappings: entity
/// counts, terminal ids and positions, and station ids, locations and
/// modes all stay.
pub proof fn lemma_fold_frame(ues: Seq<UEV>, bss: Seq<BSV>, k: nat)
    ensures
        connect_fold(ues, bss, k).0.len() == ues.len(),
        connect_fold(ues, bss, k).1.len() == bss.len(),
        forall|m: int| 0 <= m < ues.len() ==> (#[trigger] connect_fold(ues, bss, k).0[m]).id
            == ues[m].id && connect_fold(ues, bss, k).0[m].position == ues[m].position,
        forall|m: int| 0 <= m < (k as int) && m < ues.len() ==> (#[trigger] connect_fold(
            ues, bss, k).0[m]) == ues[m],
        forall|m: int| 0 <= m < bss.len() ==> (#[trigger] connect_fold(ues, bss, k).1[m]).id
            == bss[m].id && connect_fold(ues, bss, k).1[m].location == bss[m].location
            && connect_fold(ues, bss, k).1[m].mode == bss[m].mode,
    decreases ues.len() - k,
{
    if k < ues.len() {
        let u = ues[k as int];
        match chosen_station(bss, u.position) {
            None => {
                lemma_fold_frame(ues, bss, k + 1);
            },
            Some(j) => {
                lemma_best_upto_bounds(bss, u.position, bss.len());
                let gain = ue_gain_spec(u.position, bss[j].location);
                let ues2 = ues.update(
                    k as int,
                    UEV { bs: Some(bss[j].id), channel_gain: Some(gain), ..u },
                );
                let bss2 = bss.update(j, BSV { cu: upsert(bss[j].cu, u.id, gain), ..bss[j] });
                lemma_fold_frame(ues2, bss2, k + 1);
            },
        }
    }
}

/// Once a station's mapping holds a key, it holds it through the rest of
/// the pass.
pub proof fn lemma_fold_cu_monotone(ues: Seq<UEV>, bss: Seq<BSV>, k: nat, j: int, key: Seq<char>)
    requires
        0 <= j < bss.len(),
        cu_has(bss[j].cu, key),
    ensures
        cu_has(connect_fold(ues, bss, k).1[j].cu, key),
    decreases ues.len() - k,
{
    lemma_fold_frame(ues, bss, k);
    if k < ues.len() {
        let u = ues[k as int];
        match chosen_station(bss, u.position) {
            None => {
                lemma_fold_cu_monotone(ues, bss, k + 1, j, key);
            },
            Some(j2) => {
                lemma_best_upto_bounds(bss, u.position, bss.len());
                let gain = ue_gain_spec(u.position, bss[j2].location);
                let ues2 = ues.update(
                    k as int,
                    UEV { bs: Some(bss[j2].id), channel_gain: Some(gain), ..u },
                );
                let bss2 = bss.update(j2, BSV { cu: upsert(bss[j2].cu, u.id, gain), ..bss[j2] });
                if j2 == j {
                    if u.id == key {
                        crate::bs::lemma_upsert_has(bss[j].cu, u.id, gain);
                    } else {
                        crate::bs::lemma_upsert_frame(bss[j].cu, u.id, gain, key);
                    }
                }
                lemma_fold_cu_monotone(ues2, bss2, k + 1, j, key);
            },
        }
    }
}

/// From terminal `k` on, every terminal at or past `k` that has a station
/// within the service radius ends the pass associated: its association
/// and channel gain are set, the station it names is the one chosen for
/// it, and that station's mapping holds the terminal's id.
pub proof fn lemma_fold_assigns(ues: Seq<UEV>, bss: Seq<BSV>, k: nat, i: int)
    requires
        k <= i < ues.len(),
        chosen_station(bss, ues[i].position) is Some,
    ensures
        connect_fold(ues, bss, k).0[i].bs is Some,
        connect_fold(ues, bss, k).0[i].channel_gain is Some,
        ({
            let j = chosen_station(bss, ues[i].position).unwrap();
            connect_fold(ues, bss, k).0[i].bs == Some(bss[j].id) && connect_fold(
                ues,
                bss,
                k,
            ).0[i].channel_gain == Some(ue_gain_spec(ues[i].position, bss[j].location)) && cu_has(
                connect_fold(ues, bss, k).1[j].cu,
                ues[i].id,
            )
        }),
    decreases ues.len() - k,
{
    lemma_fold_frame(ues, bss, k);
    let u = ues[k as int];
    match chosen_station(bss, u.position) {
        None => {
            if k < i {
                lemma_fold_assigns(ues, bss, k + 1, i);
            }
        },
        Some(j2) => {
            lemma_best_upto_bounds(bss, u.position, bss.len());
            lemma_best_upto_bounds(bss, ues[i].position, bss.len());
            let gain = ue_gain_spec(u.position, bss[j2].location);
            let ues2 = ues.update(
                k as int,
                UEV { bs: Some(bss[j2].id), channel_gain: Some(gain), ..u },
            );
            let bss2 = bss.update(j2, BSV { cu: upsert(bss[j2].cu, u.id, gain), ..bss[j2] });
            if k < i {
                lemma_best_upto_locations(bss, bss2, ues[i].position, bss.len());
                lemma_fold_assigns(ues2, bss2, k + 1, i);
                lemma_best_upto_locations(bss2, bss, ues2[i].position, bss2.len());
            } else {
                let j = j2;
                crate::bs::lemma_upsert_has(bss[j].cu, u.id, gain);
                lemma_best_upto_locations(bss, bss2, u.position, bss.len());
                lemma_fold_frame(ues2, bss2, k + 1);
                lemma_fold_cu_monotone(ues2, bss2, k + 1, j, u.id);
                assert(connect_fold(ues, bss, k).0[i] == connect_fold(ues2, bss2, k + 1).0[i]);
            }
        },
    }
}

/// Every terminal within the service radius of at least one station is
/// left by one association pass with an associated-station id and a
/// channel gain, naming the station chosen for it, and that station's
/// connected-user mapping holds the terminal's id.
pub proof fn lemma_connect_covers(c: DefaultConnectImpl, ues: Seq<UEV>, bss: Seq<BSV>, i: int)
    requires
        0 <= i < ues.len(),
        chosen_station(bss, ues[i].position) is Some,
    ensures
        c.connect_spec(ues, bss).0[i].bs is Some,
        c.connect_spec(ues, bss).0[i].channel_gain is Some,
        ({
            let u = ues[i].position;
            let j = chosen_station(bss, ues[i].position).unwrap();
            c.connect_spec(ues, bss).0[i].bs == Some(bss[j].id) && c.connect_spec(
                ues,
                bss,
            ).0[i].channel_gain == Some(ue_gain_spec(ues[i].position, bss[j].location)) && cu_has(
                c.connect_spec(ues, bss).1[j].cu,
                ues[i].id,
            ) && in_range(u, bss[j].location) && forall|m: int|
                0 <= m < bss.len() && in_range(u, (#[trigger] bss[m]).location) ==> dist_bits(
                    u,
                    bss[j].location,
                ) <= dist_bits(u, bss[m].location)
        }),
{
    lemma_fold_assigns(ues, bss, 0, i);
    lemma_best_upto_minimal(bss, ues[i].position, bss.len());
}

} // verus!
