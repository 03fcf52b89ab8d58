use vstd::prelude::*;
use vstd::string::StringExecFns;
use crate::bs::{BS, BSV};
use crate::connect_default::{DefaultConnectImpl, lemma_fold_frame};
use crate::communication::{Connect, Transmit, bss_view, ues_view};
use crate::computing::default_crb;
use crate::location::Location;
use crate::point::{PointV, point_id_form_spec};
use crate::scalar::{Real, div_real, trunc_usize_of};
use crate::strnum::{dec_spec, dec_of_u64};
use crate::transmit_default::{TransmitDefault, TransmitDefaultV};
use crate::ue::{UE, UEV};

verus! {

// The scheduler owns every entity and drives the tick loop: within one
// tick, association always completes before any transport phase runs,
// and the position advance always comes last, so the transport phases of
// a tick see the associations computed at its start, never the next
// tick's positions.

/// The mathematical value of a scheduler: the entity values, the tick
/// length, the strategies' states, and the total simulated time.
pub ghost struct SchedulerV<C, LV, TV> {
    pub ues: Seq<UEV>,
    pub bss: Seq<BSV>,
    pub tick: Seq<char>,
    pub loc: LV,
    pub conn: C,
    pub trans: TV,
    pub total: Seq<char>,
}

/// The id a terminal is created under: its index, after a fixed prefix.
pub open spec fn ue_id_spec(i: nat) -> Seq<char> {
    "UE-"@ + dec_spec(i)
}

/// The id a station is created under: the readable form of its position,
/// after a fixed prefix.
pub open spec fn bs_id_spec(p: PointV) -> Seq<char> {
    "BS-"@ + point_id_form_spec(p)
}

/// The transport phases of one tick, from station `j` on: for each
/// station in turn, the decode phase and then the downlink phase, the
/// strategy state threading through.
pub open spec fn comm_fold<T: Transmit>(t: T::StateV, bss: Seq<BSV>, j: nat) -> (
    T::StateV,
    Seq<BSV>,
)
    decreases bss.len() - j,
{
    if j >= bss.len() {
        (t, bss)
    } else {
        let d = <T as Transmit>::decode_spec(t, bss[j as int]);
        let w = <T as Transmit>::transmit_spec(d.0, d.1);
        comm_fold::<T>(w.0, bss.update(j as int, w.1), j + 1)
    }
}

/// Whether the transport strategy is bound for every station it will be
/// handed, phase after phase.
pub open spec fn comm_ready<T: Transmit>(t: T::StateV, bss: Seq<BSV>, j: nat) -> bool
    decreases bss.len() - j,
{
    if j >= bss.len() {
        true
    } else {
        <T as Transmit>::ready_for(t, bss[j as int].id) && ({
            let d = <T as Transmit>::decode_spec(t, bss[j as int]);
            let w = <T as Transmit>::transmit_spec(d.0, d.1);
            comm_ready::<T>(w.0, bss.update(j as int, w.1), j + 1)
        })
    }
}

/// The terminal values with their positions overwritten by the advanced
/// positions, index by index; whichever sequence is shorter bounds the
/// overwrite.
pub open spec fn overwrite_positions(ues: Seq<UEV>, ps: Seq<PointV>) -> Seq<UEV> {
    Seq::new(
        ues.len(),
        |i: int| if i < ps.len() {
            UEV { position: ps[i], ..ues[i] }
        } else {
            ues[i]
        },
    )
}

/// One whole tick: association, then the transport phases of every
/// station, then the position advance.
pub open spec fn tick_step<C: Connect, T: Transmit, L: Location>(
    s: SchedulerV<C, L::StateV, T::StateV>,
) -> SchedulerV<C, L::StateV, T::StateV> {
    let cres = s.conn.connect_spec(s.ues, s.bss);
    let tres = comm_fold::<T>(s.trans, cres.1, 0);
    SchedulerV {
        ues: overwrite_positions(cres.0, <L as Location>::update_result_spec(s.loc)),
        bss: tres.1,
        trans: tres.0,
        loc: <L as Location>::update_state_spec(s.loc),
        ..s
    }
}

/// `n` whole ticks.
pub open spec fn run_iter<C: Connect, T: Transmit, L: Location>(
    s: SchedulerV<C, L::StateV, T::StateV>,
    n: nat,
) -> SchedulerV<C, L::StateV, T::StateV>
    decreases n,
{
    if n == 0 {
        s
    } else {
        run_iter::<C, T, L>(tick_step::<C, T, L>(s), (n - 1) as nat)
    }
}

/// What running `n` ticks asks for: at each tick, the association
/// strategy's own precondition, and transport bindings for every station
/// the tick will touch.
pub open spec fn run_req<C: Connect, T: Transmit, L: Location>(
    s: SchedulerV<C, L::StateV, T::StateV>,
    n: nat,
) -> bool
    decreases n,
{
    n == 0 || (s.conn.connect_req(s.ues, s.bss) && comm_ready::<T>(
        s.trans,
        s.conn.connect_spec(s.ues, s.bss).1,
        0,
    ) && run_req::<C, T, L>(tick_step::<C, T, L>(s), (n - 1) as nat))
}

/// The single-threaded simulation scheduler: it owns all terminals and
/// stations and drives the tick loop against the three injected
/// strategies.
pub struct Scheduler<C: Connect, T: Transmit, L: Location> {
    ues: Vec<UE>,
    bss: Vec<BS>,
    tick: Real,
    location_impl: L,
    connect_impl: C,
    transmit_impl: T,
    total_simulation_time: Real,
}

impl<C: Connect, T: Transmit, L: Location> View for Scheduler<C, T, L> {
    type V = SchedulerV<C, L::StateV, T::StateV>;

    closed spec fn view(&self) -> SchedulerV<C, L::StateV, T::StateV> {
        SchedulerV {
            ues: ues_view(self.ues@),
            bss: bss_view(self.bss@),
            tick: self.tick@,
            loc: self.location_impl.lview(),
            conn: self.connect_impl,
            trans: self.transmit_impl.tview(),
            total: self.total_simulation_time@,
        }
    }
}

impl<C: Connect, T: Transmit, L: Location> Scheduler<C, T, L> {
    /// Builds the scheduler from the mobility strategy's initial layout:
    /// stations get ids derived from their positions, terminals get ids
    /// derived from their index, the transport strategy is handed the
    /// station id set, and the strategy's tick length becomes the
    /// scheduler's step size.
    pub fn init(location: L, connect: C, transmit: T, total_time: Real) -> (s: Self)
        ensures
            s@.ues == Seq::new(
                <L as Location>::ues_result_spec(location.lview()).len(),
                |i: int| UEV {
                    id: ue_id_spec(i as nat),
                    position: <L as Location>::ues_result_spec(location.lview())[i],
                    channel_gain: None,
                    bs: None,
                },
            ),
            s@.bss == ({
                let l1 = <L as Location>::ues_state_spec(location.lview());
                let layout = <L as Location>::bss_result_spec(l1);
                let nb: nat = if layout.0.len() <= layout.1.len() {
                    layout.0.len()
                } else {
                    layout.1.len()
                };
                Seq::new(
                    nb,
                    |j: int| BSV {
                        id: bs_id_spec(layout.0[j]),
                        location: layout.0[j],
                        resource: default_crb(),
                        cu: Seq::empty(),
                        mode: layout.1[j],
                    },
                )
            }),
            s@.trans == <T as Transmit>::ids_set_spec(
                transmit.tview(),
                Seq::new(s@.bss.len() as nat, |j: int| s@.bss[j].id),
            ),
            s@.loc == <L as Location>::bss_state_spec(
                <L as Location>::ues_state_spec(location.lview()),
            ),
            s@.tick == <L as Location>::tick_spec(
                <L as Location>::bss_state_spec(<L as Location>::ues_state_spec(location.lview())),
            ),
            s@.conn == connect,
            s@.total == total_time@,
    {
        let mut location = location;
        let mut transmit = transmit;
        let ghost l0 = location.lview();
        let ues_pts = location.init_ues();
        let layout = location.setting_bss();
        let (bs_pts, modes) = layout;
        let nb = if bs_pts.len() <= modes.len() {
            bs_pts.len()
        } else {
            modes.len()
        };
        let mut bss_id: Vec<String> = Vec::new();
        let mut bss: Vec<BS> = Vec::new();
        let mut j: usize = 0;
        while j < nb
            invariant
                j <= nb,
                nb <= bs_pts@.len(),
                nb <= modes@.len(),
                bss_id@.len() == j,
                bss@.len() == j,
                forall|m: int| 0 <= m < j ==> (#[trigger] bss_id@[m])@ == bs_id_spec(bs_pts@[m]@),
                forall|m: int| 0 <= m < j ==> (#[trigger] bss@[m])@ == (BSV {
                    id: bs_id_spec(bs_pts@[m]@),
                    location: bs_pts@[m]@,
                    resource: default_crb(),
                    cu: Seq::empty(),
                    mode: modes@[m],
                }),
            decreases nb - j,
        {
            let id = String::from_str("BS-").concat(bs_pts[j].id_form().as_str());
            bss_id.push(id.clone());
            bss.push(BS::new(id, bs_pts[j].dup(), modes[j]));
            j = j + 1;
        }
        let mut ues: Vec<UE> = Vec::new();
        let nu = ues_pts.len();
        let mut i: usize = 0;
        while i < nu
            invariant
                i <= nu,
                nu == ues_pts@.len(),
                ues@.len() == i,
                forall|m: int| 0 <= m < i ==> (#[trigger] ues@[m])@ == (UEV {
                    id: ue_id_spec(m as nat),
                    position: ues_pts@[m]@,
                    channel_gain: None,
                    bs: None,
                }),
            decreases nu - i,
        {
            let id = String::from_str("UE-").concat(dec_of_u64(i as u64).as_str());
            ues.push(UE::new(id, ues_pts[i].dup()));
            i = i + 1;
        }
        let ghost ids = bss_id.deep_view();
        proof {
            assert(ids =~= Seq::new(bss@.len() as nat, |m: int| bss_view(bss@)[m].id));
        }
        transmit.set_bs_id(bss_id);
        let tick = location.get_tick();
        let s = Scheduler {
            ues,
            bss,
            tick,
            location_impl: location,
            connect_impl: connect,
            transmit_impl: transmit,
            total_simulation_time: total_time,
        };
        proof {
            assert(s@.ues =~= Seq::new(
                <L as Location>::ues_result_spec(l0).len(),
                |i: int| UEV {
                    id: ue_id_spec(i as nat),
                    position: <L as Location>::ues_result_spec(l0)[i],
                    channel_gain: None,
                    bs: None,
                },
            ));
            let l1 = <L as Location>::ues_state_spec(l0);
            let layout = <L as Location>::bss_result_spec(l1);
            let nbs: nat = if layout.0.len() <= layout.1.len() {
                layout.0.len()
            } else {
                layout.1.len()
            };
            assert(s@.bss =~= Seq::new(
                nbs,
                |j: int| BSV {
                    id: bs_id_spec(layout.0[j]),
                    location: layout.0[j],
                    resource: default_crb(),
                    cu: Seq::empty(),
                    mode: layout.1[j],
                },
            ));
            assert(ids =~= Seq::new(s@.bss.len() as nat, |j: int| s@.bss[j].id));
        }
        s
    }

    /// The terminals, in creation order.
    pub fn get_ues(&self) -> (r: &Vec<UE>)
        ensures
            ues_view(r@) == self@.ues,
    {
        &self.ues
    }

    /// The stations, in creation order.
    pub fn get_bss(&self) -> (r: &Vec<BS>)
        ensures
            bss_view(r@) == self@.bss,
    {
        &self.bss
    }

    /// One association pass, under a newly injected strategy if one is
    /// handed over.
    pub fn connecting(&mut self, method: Option<C>)
        requires
            (match method {
                Some(m) => m,
                None => old(self)@.conn,
            }).connect_req(old(self)@.ues, old(self)@.bss),
        ensures
            final(self)@ == (SchedulerV {
                conn: match method { Some(m) => m, None => old(self)@.conn },
                ues: (match method { Some(m) => m, None => old(self)@.conn }).connect_spec(
                    old(self)@.ues, old(self)@.bss).0,
                bss: (match method { Some(m) => m, None => old(self)@.conn }).connect_spec(
                    old(self)@.ues, old(self)@.bss).1,
                ..old(self)@
            }),
    {
        if let Some(m) = method {
            self.connect_impl = m;
        }
        self.connect_impl.connect(&mut self.ues, &mut self.bss);
    }

    /// The transport phases of one tick, under a newly injected strategy
    /// if one is handed over: for every station, decode and then
    /// downlink-transmit.  The compute phase stays reachable for
    /// strategies that need it but is not part of this per-tick dispatch.
    pub fn communication(&mut self, method: Option<T>)
        requires
            comm_ready::<T>(
                (match method {
                    Some(m) => m.tview(),
                    None => old(self)@.trans,
                }),
                old(self)@.bss,
                0,
            ),
        ensures
            final(self)@ == (SchedulerV {
                trans: comm_fold::<T>(
                    (match method { Some(m) => m.tview(), None => old(self)@.trans }),
                    old(self)@.bss,
                    0,
                ).0,
                bss: comm_fold::<T>(
                    (match method { Some(m) => m.tview(), None => old(self)@.trans }),
                    old(self)@.bss,
                    0,
                ).1,
                ..old(self)@
            }),
    {
        if let Some(m) = method {
            self.transmit_impl = m;
        }
        let ghost t0 = self.transmit_impl.tview();
        let ghost b0 = bss_view(self.bss@);
        let n = self.bss.len();
        let mut j: usize = 0;
        while j < n
            invariant
                j <= n,
                n == self.bss@.len(),
                comm_fold::<T>(self.transmit_impl.tview(), bss_view(self.bss@), j as nat)
                    == comm_fold::<T>(t0, b0, 0),
                comm_ready::<T>(self.transmit_impl.tview(), bss_view(self.bss@), j as nat),
                self.ues@ == old(self).ues@,
                self.tick@ == old(self).tick@,
                self.location_impl.lview() == old(self).location_impl.lview(),
                self.connect_impl == old(self).connect_impl,
                self.total_simulation_time@ == old(self).total_simulation_time@,
            decreases n - j,
        {
            let ghost tcur = self.transmit_impl.tview();
            let ghost bcur = bss_view(self.bss@);
            self.bss[j].download_multicast(&mut self.transmit_impl);
            proof {
                let d = <T as Transmit>::decode_spec(tcur, bcur[j as int]);
                let w = <T as Transmit>::transmit_spec(d.0, d.1);
                assert(bss_view(self.bss@) =~= bcur.update(j as int, w.1));
            }
            j = j + 1;
        }
    }

    /// The position advance that ends a tick: the mobility strategy
    /// advances every terminal, and the scheduler overwrites its
    /// terminals' positions with the returned snapshot, index by index.
    pub fn next_state(&mut self)
        ensures
            final(self)@ == (SchedulerV {
                ues: overwrite_positions(
                    old(self)@.ues,
                    <L as Location>::update_result_spec(old(self)@.loc),
                ),
                loc: <L as Location>::update_state_spec(old(self)@.loc),
                ..old(self)@
            }),
    {
        let new_location = self.location_impl.update_ues();
        let ghost u0 = ues_view(self.ues@);
        let nu = self.ues.len();
        let np = new_location.len();
        let n = if nu <= np {
            nu
        } else {
            np
        };
        let mut i: usize = 0;
        while i < n
            invariant
                i <= n,
                n <= self.ues@.len(),
                n <= new_location@.len(),
                nu == self.ues@.len(),
                self.bss@ == old(self).bss@,
                self.tick@ == old(self).tick@,
                self.location_impl.lview() == <L as Location>::update_state_spec(
                    old(self)@.loc),
                self.connect_impl == old(self).connect_impl,
                self.transmit_impl.tview() == old(self)@.trans,
                self.total_simulation_time@ == old(self).total_simulation_time@,
                forall|m: int| 0 <= m < i ==> (#[trigger] self.ues@[m])@ == (UEV {
                    position: new_location@[m]@,
                    ..u0[m]
                }),
                forall|m: int| i <= m < nu ==> (#[trigger] self.ues@[m])@ == u0[m],
                n == if nu <= new_location@.len() { nu as int } else { new_location@.len() as int },
            decreases n - i,
        {
            self.ues[i].position = new_location[i].dup();
            i = i + 1;
        }
        proof {
            assert(ues_view(self.ues@) =~= overwrite_positions(
                u0,
                <L as Location>::update_result_spec(old(self)@.loc),
            ));
        }
    }

    /// Runs the whole simulation: exactly `total time / tick length`
    /// whole ticks, truncated, each tick being association, transport,
    /// and position advance in that order; no partial tick follows.
    pub fn run(&mut self)
        requires
            run_req::<C, T, L>(
                old(self)@,
                trunc_usize_of(div_real(old(self)@.total, old(self)@.tick)) as nat,
            ),
        ensures
            final(self)@ == run_iter::<C, T, L>(
                old(self)@,
                trunc_usize_of(div_real(old(self)@.total, old(self)@.tick)) as nat,
            ),
    {
        let num = self.total_simulation_time.div(&self.tick).trunc_usize();
        let mut i: usize = 0;
        while i < num
            invariant
                i <= num,
                num == trunc_usize_of(div_real(old(self)@.total, old(self)@.tick)),
                self@ == run_iter::<C, T, L>(old(self)@, i as nat),
                run_req::<C, T, L>(self@, (num - i) as nat),
            decreases num - i,
        {
            let ghost before = self@;
            self.connecting(None);
            self.communication(None);
            self.next_state();
            proof {
                assert(self@ == tick_step::<C, T, L>(before));
                assert(run_iter::<C, T, L>(old(self)@, (i + 1) as nat) == run_iter::<C, T, L>(
                    tick_step::<C, T, L>(run_iter::<C, T, L>(old(self)@, i as nat)),
                    0,
                )) by {
                    lemma_run_iter_snoc::<C, T, L>(old(self)@, i as nat);
                }
            }
            i = i + 1;
        }
    }
}

/// Running one more tick is one step after the ticks so far.
pub proof fn lemma_run_iter_snoc<C: Connect, T: Transmit, L: Location>(
    s: SchedulerV<C, L::StateV, T::StateV>,
    n: nat,
)
    ensures
        run_iter::<C, T, L>(s, n + 1) == tick_step::<C, T, L>(run_iter::<C, T, L>(s, n)),
    decreases n,
{
    if n == 0 {
        assert(run_iter::<C, T, L>(s, 1) == run_iter::<C, T, L>(tick_step::<C, T, L>(s), 0));
    } else {
        lemma_run_iter_snoc::<C, T, L>(tick_step::<C, T, L>(s), (n - 1) as nat);
        assert(run_iter::<C, T, L>(s, n + 1) == run_iter::<C, T, L>(
            tick_step::<C, T, L>(s), n));
        assert(run_iter::<C, T, L>(s, n) == run_iter::<C, T, L>(
            tick_step::<C, T, L>(s), (n - 1) as nat));
    }
}


impl<L: Location> Scheduler<DefaultConnectImpl, TransmitDefault, L> {
    /// Runs the whole simulation under the default strategies, after
    /// checking that the transport strategy is bound for every station:
    /// when it is, exactly `total time / tick length` whole ticks run and
    /// the call reports true; when some station is unbound, nothing runs
    /// and the call reports false.
    pub fn run_default(&mut self) -> (r: bool)
        ensures
            r == (forall|m: int|
                0 <= m < old(self)@.bss.len() ==> <TransmitDefault as Transmit>::ready_for(
                    old(self)@.trans,
                    (#[trigger] old(self)@.bss[m]).id,
                )),
            r ==> final(self)@ == run_iter::<DefaultConnectImpl, TransmitDefault, L>(
                old(self)@,
                trunc_usize_of(div_real(old(self)@.total, old(self)@.tick)) as nat,
            ),
            !r ==> final(self)@ == old(self)@,
    {
        let n = self.bss.len();
        let mut m: usize = 0;
        let mut all_ready = true;
        while m < n
            invariant
                m <= n,
                n == self.bss@.len(),
                self@ == old(self)@,
                all_ready == (forall|k: int|
                    0 <= k < m ==> <TransmitDefault as Transmit>::ready_for(
                        self@.trans,
                        (#[trigger] self@.bss[k]).id,
                    )),
            decreases n - m,
        {
            if !self.transmit_impl.is_ready_for(&self.bss[m].id) {
                all_ready = false;
                proof {
                    assert(!<TransmitDefault as Transmit>::ready_for(
                        self@.trans,
                        self@.bss[m as int].id,
                    ));
                }
                // one unbound station already decides the answer
            }
            m = m + 1;
        }
        if all_ready {
            proof {
                lemma_default_run_req::<L>(
                    self@,
                    trunc_usize_of(div_real(self@.total, self@.tick)) as nat,
                );
            }
            self.run();
            true
        } else {
            false
        }
    }
}

/// Under the default transport strategy every phase leaves both the
/// strategy and the station as they were, so the transport pass of a
/// tick is the identity.
pub proof fn lemma_comm_fold_default(t: TransmitDefaultV, bss: Seq<BSV>, j: nat)
    requires
        j <= bss.len(),
    ensures
        comm_fold::<TransmitDefault>(t, bss, j) == (t, bss),
    decreases bss.len() - j,
{
    if j < bss.len() {
        assert(bss.update(j as int, bss[j as int]) =~= bss);
        lemma_comm_fold_default(t, bss, j + 1);
    }
}

/// Under the default transport strategy, bindings for every station make
/// the whole transport pass ready.
pub proof fn lemma_comm_ready_default(t: TransmitDefaultV, bss: Seq<BSV>, j: nat)
    requires
        j <= bss.len(),
        forall|m: int| j <= m < bss.len() ==> <TransmitDefault as Transmit>::ready_for(
            t,
            (#[trigger] bss[m]).id,
        ),
    ensures
        comm_ready::<TransmitDefault>(t, bss, j),
    decreases bss.len() - j,
{
    if j < bss.len() {
        assert(bss.update(j as int, bss[j as int]) =~= bss);
        lemma_comm_ready_default(t, bss, j + 1);
    }
}

/// Under the default association and transport strategies, a scheduler
/// whose transport is bound for every station can run any number of
/// ticks: the association pass asks nothing, it keeps the station ids,
/// and the default transport phases keep both the bindings and the
/// stations.
pub proof fn lemma_default_run_req<L: Location>(
    s: SchedulerV<DefaultConnectImpl, L::StateV, TransmitDefaultV>,
    n: nat,
)
    requires
        forall|m: int| 0 <= m < s.bss.len() ==> <TransmitDefault as Transmit>::ready_for(
            s.trans,
            (#[trigger] s.bss[m]).id,
        ),
    ensures
        run_req::<DefaultConnectImpl, TransmitDefault, L>(s, n),
    decreases n,
{
    if n > 0 {
        let cres = s.conn.connect_spec(s.ues, s.bss);
        lemma_fold_frame(s.ues, s.bss, 0);
        lemma_comm_ready_default(s.trans, cres.1, 0);
        lemma_comm_fold_default(s.trans, cres.1, 0);
        let s2 = tick_step::<DefaultConnectImpl, TransmitDefault, L>(s);
        assert(s2.bss == cres.1);
        assert(s2.trans == s.trans);
        lemma_default_run_req::<L>(s2, (n - 1) as nat);
    }
}

} // verus!
