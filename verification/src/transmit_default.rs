use vstd::prelude::*;
use crate::bs::{BS, BSV};
use crate::communication::Transmit;

verus! {

/// A per-station transport behaviour, dispatched by name rather than by
/// a stored closure.
#[derive(Clone, Copy)]
pub enum TransportPolicy {
    /// Do nothing in this phase.
    Idle,
}

/// What a policy does to a station's value.
pub open spec fn policy_apply(p: TransportPolicy, bs: BSV) -> BSV {
    match p {
        TransportPolicy::Idle => bs,
    }
}

/// The first policy bound to `k`, if any.
pub open spec fn bound_policy(s: Seq<(Seq<char>, TransportPolicy)>, k: Seq<char>) -> TransportPolicy
    decreases s.len(),
{
    if s.len() == 0 {
        TransportPolicy::Idle
    } else if s[0].0 == k {
        s[0].1
    } else {
        bound_policy(s.drop_first(), k)
    }
}

/// Whether some binding is keyed `k`.
pub open spec fn is_bound(s: Seq<(Seq<char>, TransportPolicy)>, k: Seq<char>) -> bool {
    exists|i: int| 0 <= i < s.len() && s[i].0 == k
}

/// The mathematical value of the default transport strategy.
pub ghost struct TransmitDefaultV {
    pub bs_id: Seq<Seq<char>>,
    pub decode_method: Seq<(Seq<char>, TransportPolicy)>,
    pub transmit_method: Seq<(Seq<char>, TransportPolicy)>,
}

/// The default transport strategy: it takes the station id set up front
/// and binds the default per-station behaviour for each id.
pub struct TransmitDefault {
    bs_id: Vec<String>,
    decode_method: Vec<(String, TransportPolicy)>,
    transmit_method: Vec<(String, TransportPolicy)>,
}

/// The bindings that `set_method` makes: the default policy, once per
/// station id.
pub open spec fn default_bindings(ids: Seq<Seq<char>>) -> Seq<(Seq<char>, TransportPolicy)> {
    Seq::new(ids.len(), |i: int| (ids[i], TransportPolicy::Idle))
}

impl TransmitDefault {
    /// A strategy with no station ids and no bindings yet.
    pub fn init() -> (t: Self)
        ensures
            t.tview() == (TransmitDefaultV {
                bs_id: Seq::empty(),
                decode_method: Seq::empty(),
                transmit_method: Seq::empty(),
            }),
    {
        let t = Self { bs_id: Vec::new(), decode_method: Vec::new(), transmit_method: Vec::new() };
        proof {
            assert(t.tview().bs_id =~= Seq::<Seq<char>>::empty());
            assert(t.tview().decode_method =~= Seq::<(Seq<char>, TransportPolicy)>::empty());
            assert(t.tview().transmit_method =~= Seq::<(Seq<char>, TransportPolicy)>::empty());
        }
        t
    }

    /// Whether both phases are bound for the station with this id.
    pub fn is_ready_for(&self, id: &String) -> (r: bool)
        ensures
            r == <Self as Transmit>::ready_for(self.tview(), id@),
    {
        let mut dec_found = false;
        let n = self.decode_method.len();
        let mut i: usize = 0;
        while i < n
            invariant
                i <= n,
                n == self.decode_method@.len(),
                dec_found == exists|m: int|
                    0 <= m < i && (#[trigger] self.decode_method@[m].0@) == id@,
            decreases n - i,
        {
            if self.decode_method[i].0 == *id {
                dec_found = true;
            }
            i = i + 1;
        }
        let mut tr_found = false;
        let k = self.transmit_method.len();
        let mut j: usize = 0;
        while j < k
            invariant
                j <= k,
                k == self.transmit_method@.len(),
                tr_found == exists|m: int|
                    0 <= m < j && (#[trigger] self.transmit_method@[m].0@) == id@,
            decreases k - j,
        {
            if self.transmit_method[j].0 == *id {
                tr_found = true;
            }
            j = j + 1;
        }
        proof {
            if dec_found {
                let m = choose|m: int|
                    0 <= m < self.decode_method@.len() && self.decode_method@[m].0@ == id@;
                assert(self.tview().decode_method[m].0 == id@);
            } else if is_bound(self.tview().decode_method, id@) {
                let m = choose|m: int|
                    0 <= m < self.tview().decode_method.len() && self.tview().decode_method[m].0
                        == id@;
                assert(self.decode_method@[m].0@ == id@);
            }
            if tr_found {
                let m = choose|m: int|
                    0 <= m < self.transmit_method@.len() && self.transmit_method@[m].0@ == id@;
                assert(self.tview().transmit_method[m].0 == id@);
            } else if is_bound(self.tview().transmit_method, id@) {
                let m = choose|m: int|
                    0 <= m < self.tview().transmit_method.len() && self.tview().transmit_method[
                        m].0 == id@;
                assert(self.transmit_method@[m].0@ == id@);
            }
        }
        dec_found && tr_found
    }

    /// Binds the default decode and downlink behaviour for every station
    /// id the strategy holds.
    pub fn set_method(&mut self)
        ensures
            final(self).tview() == (TransmitDefaultV {
                decode_method: default_bindings(old(self).tview().bs_id),
                transmit_method: default_bindings(old(self).tview().bs_id),
                ..old(self).tview()
            }),
    {
        let n = self.bs_id.len();
        let mut decode: Vec<(String, TransportPolicy)> = Vec::new();
        let mut transmit: Vec<(String, TransportPolicy)> = Vec::new();
        let mut i: usize = 0;
        while i < n
            invariant
                i <= n,
                n == self.bs_id@.len(),
                decode@.len() == i,
                transmit@.len() == i,
                forall|m: int| 0 <= m < i ==> (#[trigger] decode@[m]).0@ == self.bs_id@[m]@
                    && decode@[m].1 is Idle,
                forall|m: int| 0 <= m < i ==> (#[trigger] transmit@[m]).0@ == self.bs_id@[m]@
                    && transmit@[m].1 is Idle,
            decreases n - i,
        {
            decode.push((self.bs_id[i].clone(), TransportPolicy::Idle));
            transmit.push((self.bs_id[i].clone(), TransportPolicy::Idle));
            i = i + 1;
        }
        self.decode_method = decode;
        self.transmit_method = transmit;
        proof {
            assert(self.tview().decode_method =~= default_bindings(old(self).tview().bs_id));
            assert(self.tview().transmit_method =~= default_bindings(old(self).tview().bs_id));
        }
    }
}

impl Transmit for TransmitDefault {
    type StateV = TransmitDefaultV;

    closed spec fn tview(&self) -> TransmitDefaultV {
        TransmitDefaultV {
            bs_id: Seq::new(self.bs_id@.len(), |i: int| self.bs_id@[i]@),
            decode_method: Seq::new(
                self.decode_method@.len(),
                |i: int| (self.decode_method@[i].0@, self.decode_method@[i].1),
            ),
            transmit_method: Seq::new(
                self.transmit_method@.len(),
                |i: int| (self.transmit_method@[i].0@, self.transmit_method@[i].1),
            ),
        }
    }

    open spec fn ready_for(t: TransmitDefaultV, bs_id: Seq<char>) -> bool {
        is_bound(t.decode_method, bs_id) && is_bound(t.transmit_method, bs_id)
    }

    open spec fn ids_set_spec(t: TransmitDefaultV, ids: Seq<Seq<char>>) -> TransmitDefaultV {
        TransmitDefaultV {
            bs_id: ids,
            decode_method: default_bindings(ids),
            transmit_method: default_bindings(ids),
        }
    }

    open spec fn decode_spec(t: TransmitDefaultV, bs: BSV) -> (TransmitDefaultV, BSV) {
        (t, policy_apply(bound_policy(t.decode_method, bs.id), bs))
    }

    open spec fn computing_spec(t: TransmitDefaultV, bs: BSV) -> (TransmitDefaultV, BSV) {
        (t, bs)
    }

    open spec fn transmit_spec(t: TransmitDefaultV, bs: BSV) -> (TransmitDefaultV, BSV) {
        (t, policy_apply(bound_policy(t.transmit_method, bs.id), bs))
    }

    /// Takes the station id set and pre-binds the default behaviour for
    /// each station.
    fn set_bs_id(&mut self, id: Vec<String>) {
        proof {
            assert(Seq::new(id@.len(), |i: int| id@[i]@) =~= id.deep_view());
        }
        self.bs_id = id;
        self.set_method();
    }

    /// Looks the station's decode behaviour up and runs it.
    fn decode_impl(&mut self, bs: &mut BS) {
        let n = self.decode_method.len();
        let mut i: usize = 0;
        while i < n && !(self.decode_method[i].0 == bs.id)
            invariant
                i <= n,
                n == self.decode_method@.len(),
                forall|m: int| 0 <= m < i ==> (#[trigger] self.decode_method@[m].0@) != bs.id@,
            decreases n - i,
        {
            i = i + 1;
        }
        if i < n {
            proof {
                lemma_bound_policy_found(self.tview().decode_method, bs.id@, i as int);
            }
            match self.decode_method[i].1 {
                TransportPolicy::Idle => {},
            }
        }
    }

    /// The compute phase of the default strategy does nothing.
    fn computing(&mut self, bs: &mut BS) {
    }

    /// Looks the station's downlink behaviour up and runs it.
    fn bs_down_transmit(&mut self, bs: &mut BS) {
        let n = self.transmit_method.len();
        let mut i: usize = 0;
        while i < n && !(self.transmit_method[i].0 == bs.id)
            invariant
                i <= n,
                n == self.transmit_method@.len(),
                forall|m: int| 0 <= m < i ==> (#[trigger] self.transmit_method@[m].0@) != bs.id@,
            decreases n - i,
        {
            i = i + 1;
        }
        if i < n {
            proof {
                lemma_bound_policy_found(self.tview().transmit_method, bs.id@, i as int);
            }
            match self.transmit_method[i].1 {
                TransportPolicy::Idle => {},
            }
        }
    }
}

/// The policy bound at the first matching position is the bound policy.
pub proof fn lemma_bound_policy_found(
    s: Seq<(Seq<char>, TransportPolicy)>,
    k: Seq<char>,
    i: int,
)
    requires
        0 <= i < s.len(),
        s[i].0 == k,
        forall|m: int| 0 <= m < i ==> s[m].0 != k,
    ensures
        bound_policy(s, k) == s[i].1,
    decreases s.len(),
{
    if s[0].0 == k {
        assert(i == 0);
    } else {
        lemma_bound_policy_found(s.drop_first(), k, i - 1);
    }
}

} // verus!
